//! Users: one per registered device.

use vstd::prelude::*;
use crate::clock::epoch_millis;
use crate::clock::reading_stamp;
use crate::clock::seconds_of;
use crate::clock::stamp_or_fault;
use crate::clock::whole_seconds;
use crate::error::StorageError;
use crate::filesystem::database::get_user_from_users_db;
use crate::filesystem::database::looked_up;
use crate::filesystem::medium::Reply;
use crate::filesystem::medium::ReplyView;
use crate::filesystem::medium::UserRowView;
use crate::ident::draw_user_id;
use crate::ident::has_random_marks;
use crate::ident::is_user_id;

verus! {

/// The body of a request to register a device.
#[derive(Clone, Debug, PartialEq, Eq)]
pub struct UserRequest {
    /// The label that the device gives itself. It is stored and handed back
    /// as it is and never read.
    pub device_id: String,
}

/// A registered device.
#[derive(Clone, Debug, PartialEq, Eq)]
pub struct User {
    /// The identifier, drawn when the user registers and never changed.
    pub uuid: String,
    /// The label from the request.
    pub device_name: String,
    /// Seconds since the epoch at which the user registered.
    pub created_at: i64,
    /// Seconds since the epoch of the latest location, `None` before the
    /// first one.
    pub last_location: Option<i64>,
}

/// A user, as a value of the model.
pub struct UserView {
    pub uuid: Seq<char>,
    pub device_name: Seq<char>,
    pub created_at: i64,
    pub last_location: Option<i64>,
}

impl View for User {
    type V = UserView;

    open spec fn view(&self) -> UserView {
        UserView {
            uuid: self.uuid@,
            device_name: self.device_name@,
            created_at: self.created_at,
            last_location: self.last_location,
        }
    }
}

/// The latest location that a row records: none where the column holds 0.
pub open spec fn last_seen(column: i64) -> Option<i64> {
    if column == 0 {
        None
    } else {
        Some(column)
    }
}

/// The user that a row of the users database stands for.
pub open spec fn user_of(row: UserRowView) -> UserView {
    UserView {
        uuid: row.uuid,
        device_name: row.device_name,
        created_at: row.created_at,
        last_location: last_seen(row.last_location),
    }
}

/// The user with the given identifier and label who registers at the time
/// of the clock reading `reading`, if the reading gives a time.
pub open spec fn registered_user(
    uuid: Seq<char>,
    device_name: Seq<char>,
    reading: Option<u128>,
) -> Result<UserView, StorageError> {
    match reading_stamp(reading) {
        Ok(stamp) => Ok(
            UserView { uuid, device_name, created_at: seconds_of(stamp), last_location: None },
        ),
        Err(fault) => Err(fault),
    }
}

/// What a lookup of `uuid` yields when the medium answered `searched`.
pub open spec fn user_found(uuid: Seq<char>, searched: ReplyView) -> Result<UserView, StorageError> {
    match looked_up(uuid, searched) {
        Ok(row) => Ok(user_of(row)),
        Err(fault) => Err(fault),
    }
}

impl User {
    /// The user with the given identifier, label and time of registration,
    /// who has sent no location yet.
    pub fn with_identity(uuid: String, device_identifier: String, created_at: i64) -> (user: User)
        ensures
            user@ == (UserView {
                uuid: uuid@,
                device_name: device_identifier@,
                created_at,
                last_location: None,
            }),
    {
        User { uuid, device_name: device_identifier, created_at, last_location: None }
    }

    /// The user with the given identifier and label who registers at the
    /// time of the clock reading `reading`, in whole seconds. Without a
    /// reading that a row can hold there is no user, and the fault is
    /// `StorageFault`.
    pub fn registered(uuid: String, device_identifier: String, reading: Option<u128>) -> (user:
        Result<User, StorageError>)
        ensures
            match user {
                Ok(user) => registered_user(uuid@, device_identifier@, reading) == Ok::<
                    UserView,
                    StorageError,
                >(user@),
                Err(fault) => registered_user(uuid@, device_identifier@, reading) == Err::<
                    UserView,
                    StorageError,
                >(fault),
            },
    {
        match stamp_or_fault(reading) {
            Ok(stamp) => Ok(User::with_identity(uuid, device_identifier, whole_seconds(stamp))),
            Err(fault) => Err(fault),
        }
    }

    /// A new user for the device that calls itself `device_identifier`: the
    /// identifier is drawn at random and the time of registration is read
    /// off the clock. Where the clock gives no time that a row can hold,
    /// there is no user and the fault is `StorageFault`.
    pub fn new(device_identifier: String) -> (user: Result<User, StorageError>)
        ensures
            match user {
                Ok(user) => {
                    &&& user@.device_name == device_identifier@
                    &&& is_user_id(user@.uuid)
                    &&& has_random_marks(user@.uuid)
                    &&& user@.created_at >= 0
                    &&& user@.last_location is None
                },
                Err(fault) => fault == StorageError::StorageFault,
            },
    {
        User::registered(draw_user_id(), device_identifier, epoch_millis())
    }

    /// The user `uuid` as the users database holds it, read from the answer
    /// `searched` of the medium to the lookup of `uuid`.
    pub fn from_uuid(uuid: String, searched: Reply) -> (found: Result<User, StorageError>)
        ensures
            match found {
                Ok(user) => user_found(uuid@, searched@) == Ok::<UserView, StorageError>(user@),
                Err(fault) => user_found(uuid@, searched@) == Err::<UserView, StorageError>(fault),
            },
    {
        match get_user_from_users_db(uuid, searched) {
            Ok((uuid, device_name, created_at, last_location)) => {
                let last_location = if last_location == 0 {
                    None
                } else {
                    Some(last_location)
                };
                Ok(User { uuid, device_name, created_at, last_location })
            },
            Err(fault) => Err(fault),
        }
    }
}

} // verus!
