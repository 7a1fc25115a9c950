//! Storage core of a location tracker: one isolated, append-only location
//! store per registered device, and a registry of the devices that exist.
//!
//! The library never touches a disk. Every operation is laid out as the
//! requests it makes of the medium ([`filesystem::medium::Action`]) and as
//! the reading of the medium's answers ([`filesystem::medium::Reply`]); a
//! driver performs the requests. What the medium does with a request is
//! written down as a model ([`filesystem::medium::Disk`]), and what the
//! operations achieve on every medium that behaves like the model is proved
//! in [`filesystem::guarantees`].
//!
//! - [`user`], [`api`]: the values that travel and the decisions behind
//!   each request of a server.
//! - [`filesystem::database`]: the operations, as requests and readings.
//! - [`filesystem::procedure`]: operations of several requests, which stop
//!   at the first fault and never undo what was written.
//! - [`layout`], [`ident`], [`filesystem::track`]: where things live, what
//!   an identifier looks like, and what a new track file holds.
//! - [`clock`], [`error`]: time, and the faults.

pub mod api;
pub mod clock;
pub mod error;
pub mod filesystem;
pub mod ident;
pub mod layout;
pub mod user;
