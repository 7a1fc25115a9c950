//! What the library offers to a server: the values that travel, and the
//! decisions behind each request.

pub mod geospatial;
pub mod user;
