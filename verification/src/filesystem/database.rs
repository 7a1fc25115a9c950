//! The operations of the storage layer, each as the requests it makes of
//! the medium and the reading of the medium's answers.

use vstd::prelude::*;
use crate::api::geospatial::Location;
use crate::api::geospatial::keep_bits;
use crate::api::geospatial::kept_bits;
use crate::clock::epoch_millis;
use crate::clock::seconds_of;
use crate::clock::reading_stamp;
use crate::clock::stamp_or_fault;
use crate::clock::whole_seconds;
use crate::error::Invalid;
use crate::error::Missing;
use crate::error::StorageError;
use crate::filesystem::medium::Action;
use crate::filesystem::medium::ActionView;
use crate::filesystem::medium::LocationRow;
use crate::filesystem::medium::Reply;
use crate::filesystem::medium::ReplyView;
use crate::filesystem::medium::UserRowView;
use crate::filesystem::medium::text_views;
use crate::filesystem::procedure::Procedure;
use crate::filesystem::procedure::ProcedureView;
use crate::filesystem::procedure::Step;
use crate::filesystem::procedure::StepView;
use crate::filesystem::procedure::step_views;
use crate::filesystem::track::empty_track;
use crate::filesystem::track::empty_track_text;
use crate::ident::check_dir_name;
use crate::ident::is_dir_name;
use crate::layout::Layout;
use crate::layout::location_db_path;
use crate::layout::location_gpx_path;
use crate::layout::user_db_dir_path;
use crate::layout::user_gpx_dir_path;
use crate::layout::users_db_path;
use crate::user::User;
use crate::user::UserView;

verus! {

/// A step whose fault ends the procedure.
pub open spec fn required(action: ActionView) -> StepView {
    StepView { action, required: true }
}

/// A step whose fault is noted and passed over.
pub open spec fn best_effort(action: ActionView) -> StepView {
    StepView { action, required: false }
}

/// The steps that lay out the files of user `uuid`: the two directories,
/// the empty location database, the track file without points.
pub open spec fn filestructure_steps(root: Seq<char>, uuid: Seq<char>) -> Seq<StepView> {
    seq![
        required(ActionView::CreateDirs { path: user_db_dir_path(root, uuid) }),
        required(ActionView::CreateDirs { path: user_gpx_dir_path(root, uuid) }),
        required(ActionView::CreateStore { path: location_db_path(root, uuid) }),
        required(
            ActionView::WriteFile {
                path: location_gpx_path(root, uuid),
                content: empty_track_text(),
            },
        ),
    ]
}

/// The steps that enter `user` in the users database, which they create
/// where it is missing.
pub open spec fn registration_steps(root: Seq<char>, user: UserView) -> Seq<StepView> {
    seq![
        required(ActionView::CreateRegistry { path: users_db_path(root) }),
        required(
            ActionView::InsertUser {
                path: users_db_path(root),
                uuid: user.uuid,
                device_name: user.device_name,
                created_at: user.created_at,
            },
        ),
    ]
}

/// The steps that create `user`: the files first, the row of the users
/// database last.
pub open spec fn creation_steps(root: Seq<char>, user: UserView) -> Seq<StepView> {
    filestructure_steps(root, user.uuid) + registration_steps(root, user)
}

/// The procedure that creates `user`, before its first request.
pub open spec fn creation(root: Seq<char>, user: UserView) -> ProcedureView {
    ProcedureView::start(user.uuid, user.created_at, creation_steps(root, user))
}

/// The row that records `location`, gathered at `gathered_at`.
pub open spec fn location_row(location: Location, gathered_at: i64) -> LocationRow {
    LocationRow {
        latitude: kept_bits(location.lat()),
        longitude: kept_bits(location.lon()),
        gathered_at,
    }
}

/// The request that appends `location`, gathered at `gathered_at`, to the
/// location database of `uuid`.
pub open spec fn location_insert(
    root: Seq<char>,
    uuid: Seq<char>,
    location: Location,
    gathered_at: i64,
) -> ActionView {
    ActionView::InsertLocation {
        path: location_db_path(root, uuid),
        row: location_row(location, gathered_at),
    }
}

/// The request that records `at` as the time of the latest location of
/// `uuid`.
pub open spec fn last_location_update(root: Seq<char>, uuid: Seq<char>, at: i64) -> ActionView {
    ActionView::SetLastLocation { path: users_db_path(root), uuid, at }
}

/// The steps that take in one location: the row of the location database,
/// then, as far as it goes, the time in the users database.
pub open spec fn ingestion_steps(
    root: Seq<char>,
    uuid: Seq<char>,
    location: Location,
    gathered_at: i64,
) -> Seq<StepView> {
    seq![
        required(location_insert(root, uuid, location, gathered_at)),
        best_effort(last_location_update(root, uuid, seconds_of(gathered_at))),
    ]
}

/// The procedure that takes in one location, before its first request.
pub open spec fn ingestion(
    root: Seq<char>,
    uuid: Seq<char>,
    location: Location,
    gathered_at: i64,
) -> ProcedureView {
    ProcedureView::start(uuid, gathered_at, ingestion_steps(root, uuid, location, gathered_at))
}

/// Why a location for `uuid` is turned away before anything is asked of
/// the medium, if it is: an identifier that cannot name a directory has no
/// place for a store, and a coordinate that stands for no number cannot be
/// kept. Every other identifier goes to the medium, which knows whether
/// its store is there.
pub open spec fn ingestion_refusal(uuid: Seq<char>, location: Location) -> Option<StorageError> {
    if !is_dir_name(uuid) {
        Some(StorageError::InvalidInput(Invalid::Identifier))
    } else if !location.is_numeric() {
        Some(StorageError::InvalidInput(Invalid::Coordinate))
    } else {
        None
    }
}

/// The time at which a location for `uuid` is gathered when the clock reads
/// `reading`: none where the location is turned away, which is decided
/// first, and none, with `StorageFault`, where the reading gives no time.
pub open spec fn gathering(uuid: Seq<char>, location: Location, reading: Option<u128>) -> Result<
    i64,
    StorageError,
> {
    match ingestion_refusal(uuid, location) {
        Some(refusal) => Err(refusal),
        None => reading_stamp(reading),
    }
}

/// The request that appends `location` to the store of `uuid` when the
/// clock reads `reading`.
pub open spec fn location_request(
    root: Seq<char>,
    uuid: Seq<char>,
    location: Location,
    reading: Option<u128>,
) -> Result<ActionView, StorageError> {
    match gathering(uuid, location, reading) {
        Ok(gathered_at) => Ok(location_insert(root, uuid, location, gathered_at)),
        Err(fault) => Err(fault),
    }
}

/// The procedure that takes in `location` for `uuid` when the clock reads
/// `reading`.
pub open spec fn ingestion_begun(
    root: Seq<char>,
    uuid: Seq<char>,
    location: Location,
    reading: Option<u128>,
) -> Result<ProcedureView, StorageError> {
    match gathering(uuid, location, reading) {
        Ok(gathered_at) => Ok(ingestion(root, uuid, location, gathered_at)),
        Err(fault) => Err(fault),
    }
}

/// The fault that `reply` reports of a request that reads, where it carries
/// none of the rows asked for.
pub open spec fn read_fault(missing: Missing, reply: ReplyView) -> StorageError {
    match reply {
        ReplyView::Missing => StorageError::NotFound(missing),
        ReplyView::Busy => StorageError::Busy,
        _ => StorageError::StorageFault,
    }
}

/// The identifiers of all users when the medium answered `listed`.
pub open spec fn fetched(listed: ReplyView) -> Result<Seq<Seq<char>>, StorageError> {
    match listed {
        ReplyView::Uuids(uuids) => Ok(uuids),
        _ => Err(read_fault(Missing::Registry, listed)),
    }
}

/// The row of `uuid` when the medium answered `searched`: the first of the
/// rows it found. An answer whose first row belongs to another user is a
/// fault of the medium.
pub open spec fn looked_up(uuid: Seq<char>, searched: ReplyView) -> Result<
    UserRowView,
    StorageError,
> {
    match searched {
        ReplyView::Users(rows) => if rows.len() == 0 {
            Err(StorageError::NotFound(Missing::User))
        } else if rows[0].uuid != uuid {
            Err(StorageError::StorageFault)
        } else {
            Ok(rows[0])
        },
        _ => Err(read_fault(Missing::Registry, searched)),
    }
}

/// The locations of a user when the medium answered `listed`.
pub open spec fn fetched_locations(listed: ReplyView) -> Result<Seq<LocationRow>, StorageError> {
    match listed {
        ReplyView::Locations(rows) => Ok(rows),
        _ => Err(read_fault(Missing::Store, listed)),
    }
}

/// Reads the fault off an answer that carries none of the rows asked for.
fn fault_of_read(missing: Missing, reply: &Reply) -> (fault: StorageError)
    ensures
        fault == read_fault(missing, reply@),
{
    match reply {
        Reply::Missing => StorageError::NotFound(missing),
        Reply::Busy => StorageError::Busy,
        _ => StorageError::StorageFault,
    }
}

/// The steps that lay out the files of `user`: a directory for the location
/// database and one for the track file, the location database with its
/// empty table, and the track file without points. A user whose identifier
/// cannot name a directory has no place for files, and no step is made.
pub fn init_user_filestructure(layout: &Layout, user: &User) -> (steps: Result<
    Vec<Step>,
    StorageError,
>)
    ensures
        match steps {
            Ok(steps) => is_dir_name(user@.uuid) && step_views(steps@) == filestructure_steps(
                layout@,
                user@.uuid,
            ),
            Err(fault) => !is_dir_name(user@.uuid) && fault == StorageError::InvalidInput(
                Invalid::Identifier,
            ),
        },
{
    let uuid = user.uuid.as_str();
    let db_dir = layout.user_db_dir(uuid)?;
    let gpx_dir = layout.user_gpx_dir(uuid)?;
    let store = layout.location_db(uuid)?;
    let track = layout.location_gpx(uuid)?;
    let mut steps: Vec<Step> = Vec::new();
    steps.push(Step { action: Action::CreateDirs { path: db_dir }, required: true });
    steps.push(Step { action: Action::CreateDirs { path: gpx_dir }, required: true });
    steps.push(Step { action: Action::CreateStore { path: store }, required: true });
    steps.push(
        Step { action: Action::WriteFile { path: track, content: empty_track() }, required: true },
    );
    assert(step_views(steps@) =~= filestructure_steps(layout@, user@.uuid));
    Ok(steps)
}

/// The steps that append `user` to the users database. The database is
/// created first where it does not exist.
pub fn add_user_to_users_db(layout: &Layout, user: &User) -> (steps: Vec<Step>)
    ensures
        step_views(steps@) == registration_steps(layout@, user@),
{
    let mut steps: Vec<Step> = Vec::new();
    steps.push(Step { action: Action::CreateRegistry { path: layout.users_db() }, required: true });
    steps.push(
        Step {
            action: Action::InsertUser {
                path: layout.users_db(),
                uuid: user.uuid.clone(),
                device_name: user.device_name.clone(),
                created_at: user.created_at,
            },
            required: true,
        },
    );
    assert(step_views(steps@) =~= registration_steps(layout@, user@));
    steps
}

/// The procedure that creates `user` on the medium: the directories, the
/// location database and the track file, then the row of the users
/// database. A user whose identifier cannot name a directory is turned away
/// and nothing is asked of the medium.
pub fn initialize_new_user(layout: &Layout, user: &User) -> (begun: Result<Procedure, StorageError>)
    ensures
        match begun {
            Ok(procedure) => is_dir_name(user@.uuid) && procedure@ == creation(layout@, user@),
            Err(fault) => !is_dir_name(user@.uuid) && fault == StorageError::InvalidInput(
                Invalid::Identifier,
            ),
        },
{
    match init_user_filestructure(layout, user) {
        Err(fault) => Err(fault),
        Ok(mut steps) => {
            let mut registration = add_user_to_users_db(layout, user);
            steps.append(&mut registration);
            assert(step_views(steps@) =~= creation_steps(layout@, user@));
            Ok(Procedure::new(user.uuid.clone(), user.created_at, steps))
        },
    }
}

/// The request that writes the time of the latest location of `user` to the
/// users database: 0 for a user without one.
pub fn update_user_last_location(layout: &Layout, user: User) -> (action: Action)
    ensures
        action@ == last_location_update(
            layout@,
            user@.uuid,
            match user@.last_location {
                Some(at) => at,
                None => 0,
            },
        ),
{
    let at: i64 = match user.last_location {
        Some(at) => at,
        None => 0,
    };
    Action::SetLastLocation { path: layout.users_db(), uuid: user.uuid, at }
}

/// Decides whether a location for `uuid` is turned away before anything is
/// asked of the medium.
fn refuse_ingestion(uuid: &str, location: &Location) -> (refusal: Option<StorageError>)
    ensures
        refusal == ingestion_refusal(uuid@, *location),
{
    if !check_dir_name(uuid) {
        Some(StorageError::InvalidInput(Invalid::Identifier))
    } else if !location.check_numeric() {
        Some(StorageError::InvalidInput(Invalid::Coordinate))
    } else {
        None
    }
}

/// Decides at what time a location for `uuid` is gathered when the clock
/// reads `reading`: a location that is turned away has no time, whatever
/// the clock reads, and neither has one that comes without a reading that a
/// row can hold.
pub fn gathering_time(uuid: &str, location: &Location, reading: Option<u128>) -> (gathered_at:
    Result<i64, StorageError>)
    ensures
        gathered_at == gathering(uuid@, *location, reading),
{
    match refuse_ingestion(uuid, location) {
        Some(refusal) => Err(refusal),
        None => stamp_or_fault(reading),
    }
}

/// The request that appends `location`, gathered at `gathered_at`
/// milliseconds after the epoch, to the location database of `uuid`. The
/// coordinates are taken as they are, in any range. Whether the store is
/// there is for the medium to say: only an identifier that cannot name a
/// directory, or a coordinate that stands for no number, is turned away
/// here.
pub fn location_insertion(
    layout: &Layout,
    uuid: &str,
    location: &Location,
    gathered_at: i64,
) -> (request: Result<Action, StorageError>)
    ensures
        match request {
            Ok(action) => ingestion_refusal(uuid@, *location) is None && action@
                == location_insert(layout@, uuid@, *location, gathered_at),
            Err(fault) => ingestion_refusal(uuid@, *location) == Some(fault),
        },
{
    match refuse_ingestion(uuid, location) {
        Some(refusal) => Err(refusal),
        None => {
            let path = layout.location_db(uuid)?;
            Ok(
                Action::InsertLocation {
                    path,
                    row: LocationRow {
                        latitude: keep_bits(location.lat()),
                        longitude: keep_bits(location.lon()),
                        gathered_at,
                    },
                },
            )
        },
    }
}

/// The request that appends `location` to the location database of `uuid`
/// at the time of the clock reading `reading`. A location that is turned
/// away is turned away whatever the clock reads; without a reading that a
/// row can hold the request is not made and the fault is `StorageFault`.
pub fn location_insertion_at_reading(
    layout: &Layout,
    uuid: &str,
    location: &Location,
    reading: Option<u128>,
) -> (request: Result<Action, StorageError>)
    ensures
        match request {
            Ok(action) => location_request(layout@, uuid@, *location, reading) == Ok::<
                ActionView,
                StorageError,
            >(action@),
            Err(fault) => location_request(layout@, uuid@, *location, reading) == Err::<
                ActionView,
                StorageError,
            >(fault),
        },
{
    match gathering_time(uuid, location, reading) {
        Ok(gathered_at) => location_insertion(layout, uuid, location, gathered_at),
        Err(fault) => Err(fault),
    }
}

/// The request that appends `location` to the location database of `uuid`,
/// with the time read off the clock. Where the clock gives no time that a
/// row can hold, the request is not made and the fault is `StorageFault`.
pub fn add_location_to_user_db(layout: &Layout, uuid: String, location: &Location) -> (request:
    Result<Action, StorageError>)
    ensures
        match request {
            Ok(action) => ingestion_refusal(uuid@, *location) is None && exists|gathered_at: i64|
                0 <= gathered_at && action@ == #[trigger] location_insert(
                    layout@,
                    uuid@,
                    *location,
                    gathered_at,
                ),
            Err(fault) => match ingestion_refusal(uuid@, *location) {
                Some(refusal) => fault == refusal,
                None => fault == StorageError::StorageFault,
            },
        },
{
    location_insertion_at_reading(layout, uuid.as_str(), location, epoch_millis())
}

/// The procedure that takes in `location` for `uuid` at `gathered_at`
/// milliseconds after the epoch: it appends the row to the user's location
/// database and then records the time, in whole seconds, in the users
/// database. Only the first step must succeed.
pub fn ingest_location_at(
    layout: &Layout,
    uuid: &str,
    location: &Location,
    gathered_at: i64,
) -> (begun: Result<Procedure, StorageError>)
    ensures
        match begun {
            Ok(procedure) => ingestion_refusal(uuid@, *location) is None && procedure@
                == ingestion(layout@, uuid@, *location, gathered_at),
            Err(fault) => ingestion_refusal(uuid@, *location) == Some(fault),
        },
{
    match location_insertion(layout, uuid, location, gathered_at) {
        Err(fault) => Err(fault),
        Ok(insert) => {
            let touch = Action::SetLastLocation {
                path: layout.users_db(),
                uuid: String::from_str(uuid),
                at: whole_seconds(gathered_at),
            };
            let mut steps: Vec<Step> = Vec::new();
            steps.push(Step { action: insert, required: true });
            steps.push(Step { action: touch, required: false });
            assert(step_views(steps@) =~= ingestion_steps(layout@, uuid@, *location, gathered_at));
            Ok(Procedure::new(String::from_str(uuid), gathered_at, steps))
        },
    }
}

/// The procedure that takes in `location` for `uuid` at the time of the
/// clock reading `reading`. A location that is turned away is turned away
/// whatever the clock reads; without a reading that a row can hold nothing
/// is begun and the fault is `StorageFault`.
pub fn ingest_location_at_reading(
    layout: &Layout,
    uuid: &str,
    location: &Location,
    reading: Option<u128>,
) -> (begun: Result<Procedure, StorageError>)
    ensures
        match begun {
            Ok(procedure) => ingestion_begun(layout@, uuid@, *location, reading) == Ok::<
                ProcedureView,
                StorageError,
            >(procedure@),
            Err(fault) => ingestion_begun(layout@, uuid@, *location, reading) == Err::<
                ProcedureView,
                StorageError,
            >(fault),
        },
{
    match gathering_time(uuid, location, reading) {
        Ok(gathered_at) => ingest_location_at(layout, uuid, location, gathered_at),
        Err(fault) => Err(fault),
    }
}

/// The procedure that takes in `location` for `uuid` now. Where the clock
/// gives no time that a row can hold, nothing is begun and the fault is
/// `StorageFault`.
pub fn ingest_location(layout: &Layout, uuid: &str, location: &Location) -> (begun: Result<
    Procedure,
    StorageError,
>)
    ensures
        match begun {
            Ok(procedure) => ingestion_refusal(uuid@, *location) is None && exists|
                gathered_at: i64,
            |
                0 <= gathered_at && procedure@ == #[trigger] ingestion(
                    layout@,
                    uuid@,
                    *location,
                    gathered_at,
                ),
            Err(fault) => match ingestion_refusal(uuid@, *location) {
                Some(refusal) => fault == refusal,
                None => fault == StorageError::StorageFault,
            },
        },
{
    ingest_location_at_reading(layout, uuid, location, epoch_millis())
}

/// The request that reads the identifiers of all users.
pub fn users_listing(layout: &Layout) -> (action: Action)
    ensures
        action@ == (ActionView::SelectUuids { path: users_db_path(layout@) }),
{
    Action::SelectUuids { path: layout.users_db() }
}

/// The identifiers of all users, in the order of their registration, read
/// from the answer of the medium to [`users_listing`]. A users database
/// without rows gives the empty list; one that has never been written gives
/// `NotFound(Registry)`.
pub fn fetch_users(listed: Reply) -> (users: Result<Vec<String>, StorageError>)
    ensures
        match users {
            Ok(uuids) => fetched(listed@) == Ok::<Seq<Seq<char>>, StorageError>(
                text_views(uuids@),
            ),
            Err(fault) => fetched(listed@) == Err::<Seq<Seq<char>>, StorageError>(fault),
        },
{
    match listed {
        Reply::Uuids(uuids) => Ok(uuids),
        other => Err(fault_of_read(Missing::Registry, &other)),
    }
}

/// The request that reads the row of `uuid` from the users database.
pub fn user_lookup(layout: &Layout, uuid: &str) -> (action: Action)
    ensures
        action@ == (ActionView::SelectUser { path: users_db_path(layout@), uuid: uuid@ }),
{
    Action::SelectUser { path: layout.users_db(), uuid: String::from_str(uuid) }
}

/// The row of `uuid` in the users database, read from the answer of the
/// medium to [`user_lookup`]: identifier, label, time of registration and
/// time of the latest location. `NotFound(User)` where the database holds
/// no such row, `NotFound(Registry)` where it has never been written.
pub fn get_user_from_users_db(uuid: String, searched: Reply) -> (found: Result<
    (String, String, i64, i64),
    StorageError,
>)
    ensures
        match found {
            Ok((found_uuid, device_name, created_at, last_location)) => looked_up(
                uuid@,
                searched@,
            ) == Ok::<UserRowView, StorageError>(
                UserRowView {
                    uuid: found_uuid@,
                    device_name: device_name@,
                    created_at,
                    last_location,
                },
            ),
            Err(fault) => looked_up(uuid@, searched@) == Err::<UserRowView, StorageError>(fault),
        },
{
    match searched {
        Reply::Users(mut rows) => {
            if rows.len() == 0 {
                return Err(StorageError::NotFound(Missing::User));
            }
            let row = rows.swap_remove(0);
            if row.uuid != uuid {
                return Err(StorageError::StorageFault);
            }
            Ok((row.uuid, row.device_name, row.created_at, row.last_location))
        },
        other => Err(fault_of_read(Missing::Registry, &other)),
    }
}

/// The request that reads the locations of `uuid`. An identifier that
/// cannot name a directory has no place for a store.
pub fn locations_listing(layout: &Layout, uuid: &str) -> (request: Result<Action, StorageError>)
    ensures
        match request {
            Ok(action) => is_dir_name(uuid@) && action@ == (ActionView::SelectLocations {
                path: location_db_path(layout@, uuid@),
            }),
            Err(fault) => !is_dir_name(uuid@) && fault == StorageError::InvalidInput(
                Invalid::Identifier,
            ),
        },
{
    match layout.location_db(uuid) {
        Ok(path) => Ok(Action::SelectLocations { path }),
        Err(fault) => Err(fault),
    }
}

/// The locations of a user in the order they were taken in, read from the
/// answer of the medium to [`locations_listing`].
pub fn fetch_locations(listed: Reply) -> (locations: Result<Vec<LocationRow>, StorageError>)
    ensures
        match locations {
            Ok(rows) => fetched_locations(listed@) == Ok::<Seq<LocationRow>, StorageError>(rows@),
            Err(fault) => fetched_locations(listed@) == Err::<Seq<LocationRow>, StorageError>(
                fault,
            ),
        },
{
    match listed {
        Reply::Locations(rows) => Ok(rows),
        other => Err(fault_of_read(Missing::Store, &other)),
    }
}

} // verus!
