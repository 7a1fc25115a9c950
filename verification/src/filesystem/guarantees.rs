//! What holds of the storage layer on every medium that behaves as
//! [`Disk`] says, whatever faults occur: files are never removed and
//! location stores only grow, users are kept apart, and a user that was
//! created is found and takes locations.

use vstd::prelude::*;
use crate::api::geospatial::Location;
use crate::api::user::HttpReplyView;
use crate::api::user::joined;
use crate::api::user::json_array;
use crate::api::user::users_reply;
use crate::clock::seconds_of;
use crate::error::Missing;
use crate::error::StorageError;
use crate::filesystem::database::creation;
use crate::filesystem::database::fetched;
use crate::filesystem::database::filestructure_steps;
use crate::filesystem::database::registration_steps;
use crate::filesystem::database::fetched_locations;
use crate::filesystem::database::ingestion;
use crate::filesystem::database::last_location_update;
use crate::filesystem::database::location_insert;
use crate::filesystem::database::location_row;
use crate::filesystem::medium::ActionView;
use crate::filesystem::medium::Disk;
use crate::filesystem::medium::FileView;
use crate::filesystem::medium::LocationRow;
use crate::filesystem::medium::ReplyView;
use crate::filesystem::medium::UserRowView;
use crate::filesystem::medium::belongs_to;
use crate::filesystem::medium::rows_of;
use crate::filesystem::medium::touched;
use crate::filesystem::medium::touched_row;
use crate::filesystem::medium::uuids_of;
use crate::filesystem::procedure::ProcedureView;
use crate::filesystem::procedure::ReceiptView;
use crate::filesystem::procedure::Turn;
use crate::filesystem::procedure::turn_at;
use crate::filesystem::track::empty_track_text;
use crate::layout::lemma_families_disjoint;
use crate::layout::lemma_location_db_injective;
use crate::layout::lemma_location_gpx_injective;
use crate::layout::location_db_path;
use crate::layout::location_gpx_path;
use crate::layout::users_db_path;
use crate::user::UserView;
use crate::user::user_found;

verus! {

/// The rows of the users database under `root`: none where it has never
/// been written.
pub open spec fn registry_rows(disk: Disk, root: Seq<char>) -> Seq<UserRowView> {
    if disk.files.contains_key(users_db_path(root)) {
        match disk.files[users_db_path(root)] {
            FileView::Users(rows) => rows,
            _ => Seq::empty(),
        }
    } else {
        Seq::empty()
    }
}

/// Whether `uuid` has a location store under `root`.
pub open spec fn has_store(disk: Disk, root: Seq<char>, uuid: Seq<char>) -> bool {
    &&& disk.files.contains_key(location_db_path(root, uuid))
    &&& disk.files[location_db_path(root, uuid)] is Locations
}

/// The locations in the store of `uuid`: none where it has no store.
pub open spec fn locations_of(disk: Disk, root: Seq<char>, uuid: Seq<char>) -> Seq<LocationRow> {
    if has_store(disk, root, uuid) {
        disk.files[location_db_path(root, uuid)]->Locations_0
    } else {
        Seq::empty()
    }
}

/// What the path of the users database holds is a users database.
pub open spec fn registry_sound(disk: Disk, root: Seq<char>) -> bool {
    disk.files.contains_key(users_db_path(root)) ==> disk.files[users_db_path(root)] is Users
}

/// No two rows of `rows` have the same identifier.
pub open spec fn distinct_ids(rows: Seq<UserRowView>) -> bool {
    forall|i: int, j: int|
        #![trigger rows[i], rows[j]]
        0 <= i < j < rows.len() ==> rows[i].uuid != rows[j].uuid
}

/// No row of `rows` has the identifier `uuid`.
pub open spec fn unknown_to(rows: Seq<UserRowView>, uuid: Seq<char>) -> bool {
    forall|i: int| 0 <= i < rows.len() ==> (#[trigger] rows[i]).uuid != uuid
}

/// The users database and the location stores agree: no two rows have the
/// same identifier, and every row names a user who has a store. (A store
/// without a row is what a creation leaves behind that failed half way.)
pub open spec fn consistent(disk: Disk, root: Seq<char>) -> bool {
    &&& registry_sound(disk, root)
    &&& distinct_ids(registry_rows(disk, root))
    &&& forall|i: int|
        0 <= i < registry_rows(disk, root).len() ==> has_store(
            disk,
            root,
            #[trigger] registry_rows(disk, root)[i].uuid,
        )
}

/// Every path that named a file in `before` names one in `after`.
pub open spec fn keeps_files(before: Disk, after: Disk) -> bool {
    forall|path: Seq<char>| #[trigger]
        before.files.contains_key(path) ==> after.files.contains_key(path)
}

/// What a read of the user `uuid` yields on `disk`.
pub open spec fn read_user(disk: Disk, root: Seq<char>, uuid: Seq<char>) -> Result<
    UserView,
    StorageError,
> {
    user_found(uuid, disk.perform(ActionView::SelectUser { path: users_db_path(root), uuid }).1)
}

/// What a read of the list of users yields on `disk`.
pub open spec fn read_users(disk: Disk, root: Seq<char>) -> Result<Seq<Seq<char>>, StorageError> {
    fetched(disk.perform(ActionView::SelectUuids { path: users_db_path(root) }).1)
}

/// What a read of the locations of `uuid` yields on `disk`.
pub open spec fn read_locations(disk: Disk, root: Seq<char>, uuid: Seq<char>) -> Result<
    Seq<LocationRow>,
    StorageError,
> {
    fetched_locations(
        disk.perform(ActionView::SelectLocations { path: location_db_path(root, uuid) }).1,
    )
}

/// The procedure that lays out the files of user `uuid` and nothing else,
/// before its first request.
pub open spec fn file_layout(root: Seq<char>, uuid: Seq<char>, at: i64) -> ProcedureView {
    ProcedureView::start(uuid, at, filestructure_steps(root, uuid))
}

/// The procedure that enters `user` in the users database and nothing
/// else, before its first request.
pub open spec fn registration(root: Seq<char>, user: UserView) -> ProcedureView {
    ProcedureView::start(user.uuid, user.created_at, registration_steps(root, user))
}

/// Whether `action` leaves the file at `path` alone or only adds to it:
/// every request does but the one that writes a whole file there.
pub open spec fn spares(action: ActionView, path: Seq<char>) -> bool {
    action matches ActionView::WriteFile { path: written, .. } ==> written != path
}

/// Whether `procedure` is one of the two procedures that write: the
/// creation of some user or the ingestion of some location.
pub open spec fn writes_for_library(root: Seq<char>, procedure: ProcedureView) -> bool {
    ||| exists|user: UserView| procedure == creation(root, user)
    ||| exists|who: Seq<char>, location: Location, gathered_at: i64|
        procedure == ingestion(root, who, location, gathered_at)
}

/// One run of a procedure: the procedure at its start and the turns the
/// medium takes.
pub struct Run {
    pub procedure: ProcedureView,
    pub turns: Seq<Turn>,
}

/// The medium after the runs of `runs` have been made on it, one after the
/// other.
pub open spec fn after_all(disk: Disk, runs: Seq<Run>) -> Disk
    decreases runs.len(),
{
    if runs.len() == 0 {
        disk
    } else {
        runs.last().procedure.run(after_all(disk, runs.drop_last()), runs.last().turns).1
    }
}

/// The procedure and the medium after the pending request, if there is
/// one, was made and answered.
pub open spec fn after_one_step(procedure: ProcedureView, disk: Disk, turns: Seq<Turn>) -> (
    ProcedureView,
    Disk,
) {
    match procedure.pending() {
        None => (procedure, disk),
        Some(action) => {
            let (next, reply) = disk.serve(action, turn_at(turns, procedure.cursor));
            (procedure.advance(reply), next)
        },
    }
}

/// Whether the medium serves the first `n` requests under `turns`.
pub open spec fn serves_first(turns: Seq<Turn>, n: nat) -> bool {
    forall|i: nat| i < n ==> #[trigger] turn_at(turns, i) is Served
}

/// The row that the creation of `user` appends to the users database.
pub open spec fn new_row(user: UserView) -> UserRowView {
    UserRowView {
        uuid: user.uuid,
        device_name: user.device_name,
        created_at: user.created_at,
        last_location: 0,
    }
}

/// Whether every request of `procedure` spares the file at `path`.
pub open spec fn spares_throughout(procedure: ProcedureView, path: Seq<char>) -> bool {
    forall|i: int|
        0 <= i < procedure.steps.len() ==> spares((#[trigger] procedure.steps[i]).action, path)
}

/// No request removes a file, whatever the medium answers.
pub proof fn lemma_files_are_kept(disk: Disk, action: ActionView, next: Disk, reply: ReplyView)
    requires
        disk.answers(action, next, reply),
    ensures
        keeps_files(disk, next),
{
}

/// A location store only grows: after any request that does not write a
/// whole file over it, whatever the medium answers, the store is still
/// there and the rows it held are the first rows it holds.
pub proof fn lemma_store_only_grows(
    disk: Disk,
    root: Seq<char>,
    uuid: Seq<char>,
    action: ActionView,
    next: Disk,
    reply: ReplyView,
)
    requires
        disk.answers(action, next, reply),
        spares(action, location_db_path(root, uuid)),
    ensures
        has_store(disk, root, uuid) ==> has_store(next, root, uuid),
        locations_of(disk, root, uuid).is_prefix_of(locations_of(next, root, uuid)),
{
    let before = locations_of(disk, root, uuid);
    let after = locations_of(next, root, uuid);
    if has_store(disk, root, uuid) {
        assert(has_store(next, root, uuid));
        assert(before.len() <= after.len());
        assert(before =~= after.subrange(0, before.len() as int));
    } else {
        assert(before =~= after.subrange(0, 0));
    }
}

/// Whatever turn the medium takes, what it does is among its answers.
pub proof fn lemma_serve_answers(disk: Disk, action: ActionView, turn: Turn)
    ensures
        disk.answers(action, disk.serve(action, turn).0, disk.serve(action, turn).1),
{
}

/// A run is its first step followed by the run of what is left.
pub proof fn lemma_run_unfolds(procedure: ProcedureView, disk: Disk, turns: Seq<Turn>)
    ensures
        procedure.run(disk, turns) == match procedure.pending() {
            None => (procedure, disk),
            Some(action) => {
                let (next, reply) = disk.serve(action, turn_at(turns, procedure.cursor));
                procedure.advance(reply).run(next, turns)
            },
        },
{
}

/// Every run comes to an end: no request is pending afterwards and the
/// outcome is decided.
pub proof fn lemma_run_ends(procedure: ProcedureView, disk: Disk, turns: Seq<Turn>)
    ensures
        procedure.run(disk, turns).0.pending() is None,
        procedure.run(disk, turns).0.outcome() is Some,
    decreases procedure.remaining(),
{
    match procedure.pending() {
        None => {},
        Some(action) => {
            let (next, reply) = disk.serve(action, turn_at(turns, procedure.cursor));
            lemma_run_ends(procedure.advance(reply), next, turns);
        },
    }
}

/// No run removes a file, whatever faults occur.
pub proof fn lemma_run_keeps_files(procedure: ProcedureView, disk: Disk, turns: Seq<Turn>)
    ensures
        keeps_files(disk, procedure.run(disk, turns).1),
    decreases procedure.remaining(),
{
    match procedure.pending() {
        None => {},
        Some(action) => {
            let (next, reply) = disk.serve(action, turn_at(turns, procedure.cursor));
            lemma_serve_answers(disk, action, turn_at(turns, procedure.cursor));
            lemma_files_are_kept(disk, action, next, reply);
            lemma_run_keeps_files(procedure.advance(reply), next, turns);
        },
    }
}

/// A run whose requests all spare the store of `uuid` only adds to it,
/// whatever faults occur.
pub proof fn lemma_run_grows_store(
    procedure: ProcedureView,
    disk: Disk,
    turns: Seq<Turn>,
    root: Seq<char>,
    uuid: Seq<char>,
)
    requires
        spares_throughout(procedure, location_db_path(root, uuid)),
    ensures
        has_store(disk, root, uuid) ==> has_store(procedure.run(disk, turns).1, root, uuid),
        locations_of(disk, root, uuid).is_prefix_of(
            locations_of(procedure.run(disk, turns).1, root, uuid),
        ),
    decreases procedure.remaining(),
{
    match procedure.pending() {
        None => {
            assert(locations_of(disk, root, uuid) =~= locations_of(disk, root, uuid).subrange(
                0,
                locations_of(disk, root, uuid).len() as int,
            ));
        },
        Some(action) => {
            let (next, reply) = disk.serve(action, turn_at(turns, procedure.cursor));
            assert(action == procedure.steps[procedure.cursor as int].action);
            lemma_serve_answers(disk, action, turn_at(turns, procedure.cursor));
            lemma_store_only_grows(disk, root, uuid, action, next, reply);
            let rest = procedure.advance(reply);
            assert(rest.steps == procedure.steps);
            lemma_run_grows_store(rest, next, turns, root, uuid);
            let first = locations_of(disk, root, uuid);
            let second = locations_of(next, root, uuid);
            let third = locations_of(rest.run(next, turns).1, root, uuid);
            assert(first =~= third.subrange(0, first.len() as int)) by {
                assert(first =~= second.subrange(0, first.len() as int));
                assert(second =~= third.subrange(0, second.len() as int));
            }
        },
    }
}

/// The medium after a location was taken in: where the first request was
/// carried out, the medium after the second request, whatever became of
/// that; else the medium as it was.
pub open spec fn ingested(
    root: Seq<char>,
    uuid: Seq<char>,
    location: Location,
    gathered_at: i64,
    disk: Disk,
    turns: Seq<Turn>,
) -> Disk {
    let (appended, reply) = disk.serve(
        location_insert(root, uuid, location, gathered_at),
        turn_at(turns, 0),
    );
    if reply == ReplyView::Done {
        appended.serve(
            last_location_update(root, uuid, seconds_of(gathered_at)),
            turn_at(turns, 1),
        ).0
    } else {
        disk
    }
}

/// Taking in a location, on any medium and under any faults.
///
/// The procedure ends. It succeeds exactly when the medium serves the first
/// request and the user has a store; the store then holds one row more, the
/// one taken in, and the receipt carries the time of that row. Otherwise
/// nothing was written. A fault at the second step does not change the
/// outcome. A medium that is busy at the first request yields `Busy`, a
/// medium without a file for the user `NotFound`. The medium afterwards is
/// what the two requests, made one after the other, leave.
pub proof fn lemma_ingestion(
    root: Seq<char>,
    uuid: Seq<char>,
    location: Location,
    gathered_at: i64,
    disk: Disk,
    turns: Seq<Turn>,
)
    ensures
        ({
            let (done, after) = ingestion(root, uuid, location, gathered_at).run(disk, turns);
            let row = location_row(location, gathered_at);
            let served = turn_at(turns, 0) is Served;
            &&& done.outcome() is Some
            &&& after == ingested(root, uuid, location, gathered_at, disk, turns)
            &&& done.outcome() == Some(
                Ok::<ReceiptView, StorageError>(ReceiptView { uuid, at: gathered_at }),
            ) <==> served && has_store(disk, root, uuid)
            &&& served && has_store(disk, root, uuid) ==> {
                &&& has_store(after, root, uuid)
                &&& locations_of(after, root, uuid) == locations_of(disk, root, uuid).push(row)
            }
            &&& !(served && has_store(disk, root, uuid)) ==> after == disk
            &&& turn_at(turns, 0) is Busy ==> done.outcome() == Some(
                Err::<ReceiptView, StorageError>(StorageError::Busy),
            )
            &&& served && !disk.files.contains_key(location_db_path(root, uuid))
                ==> done.outcome() == Some(
                Err::<ReceiptView, StorageError>(StorageError::NotFound(Missing::Store)),
            )
        }),
{
    // the second request goes to the users database, which is no store
    lemma_families_disjoint(root, uuid, uuid);
    let start = ingestion(root, uuid, location, gathered_at);
    let s1 = after_one_step(start, disk, turns);
    let s2 = after_one_step(s1.0, s1.1, turns);
    lemma_run_after_one_step(start, disk, turns);
    lemma_run_after_one_step(s1.0, s1.1, turns);
    lemma_run_unfolds(s2.0, s2.1, turns);
    assert(s2.0.pending() is None);
    assert(start.run(disk, turns) == s2);
}

/// A run goes on from where one step has led.
pub proof fn lemma_run_after_one_step(procedure: ProcedureView, disk: Disk, turns: Seq<Turn>)
    ensures
        procedure.run(disk, turns) == after_one_step(procedure, disk, turns).0.run(
            after_one_step(procedure, disk, turns).1,
            turns,
        ),
{
    lemma_run_unfolds(procedure, disk, turns);
}

/// Creating a user, on any medium and under any faults.
///
/// The procedure ends. Where it succeeds, the identifier had no file at the
/// place of its store before; afterwards the user has an empty store and a
/// track file without points, and the users database holds the rows it held
/// and, last, the row of the new user. Where it fails, the users database
/// holds the rows it held: a user whose creation failed is not registered,
/// though files of it may be left behind. It succeeds whenever the medium
/// serves every request, the place of the store is free and the path of the
/// users database holds nothing else; it fails with `Conflict` when a file
/// is at the place of the store already. No path but those of the user's
/// store, the user's track file and the users database is touched, and a
/// store that was there is left as it was.
pub proof fn lemma_creation(root: Seq<char>, user: UserView, disk: Disk, turns: Seq<Turn>)
    ensures
        ({
            let (done, after) = creation(root, user).run(disk, turns);
            let store = location_db_path(root, user.uuid);
            let track = location_gpx_path(root, user.uuid);
            let users = users_db_path(root);
            let succeeded = done.outcome() == Some(
                Ok::<ReceiptView, StorageError>(
                    ReceiptView { uuid: user.uuid, at: user.created_at },
                ),
            );
            &&& done.outcome() is Some
            &&& succeeded || done.outcome()->0 is Err
            &&& succeeded ==> {
                &&& serves_first(turns, 6)
                &&& !disk.files.contains_key(store)
                &&& registry_sound(disk, root)
                &&& has_store(after, root, user.uuid)
                &&& locations_of(after, root, user.uuid) == Seq::<LocationRow>::empty()
                &&& after.files.contains_key(track)
                &&& after.files[track] == FileView::Text(empty_track_text())
                &&& after.files.contains_key(users)
                &&& after.files[users] == FileView::Users(
                    registry_rows(disk, root).push(new_row(user)),
                )
            }
            &&& !succeeded ==> registry_rows(after, root) == registry_rows(disk, root)
            &&& serves_first(turns, 6) && !disk.files.contains_key(store) && registry_sound(
                disk,
                root,
            ) ==> succeeded
            &&& serves_first(turns, 3) && disk.files.contains_key(store) ==> done.outcome()
                == Some(Err::<ReceiptView, StorageError>(StorageError::Conflict))
            &&& disk.files.contains_key(store) ==> after.files[store] == disk.files[store]
            &&& registry_sound(disk, root) ==> registry_sound(after, root)
            &&& forall|path: Seq<char>|
                path != store && path != track && path != users ==> {
                    &&& #[trigger] after.files.contains_key(path) == disk.files.contains_key(path)
                    &&& after.files[path] == disk.files[path]
                }
        }),
{
    // the three paths that the six requests go to are three different paths
    lemma_families_disjoint(root, user.uuid, user.uuid);
    let s0 = (creation(root, user), disk);
    let s1 = after_one_step(s0.0, s0.1, turns);
    let s2 = after_one_step(s1.0, s1.1, turns);
    let s3 = after_one_step(s2.0, s2.1, turns);
    let s4 = after_one_step(s3.0, s3.1, turns);
    let s5 = after_one_step(s4.0, s4.1, turns);
    let s6 = after_one_step(s5.0, s5.1, turns);
    lemma_run_after_one_step(s0.0, s0.1, turns);
    lemma_run_after_one_step(s1.0, s1.1, turns);
    lemma_run_after_one_step(s2.0, s2.1, turns);
    lemma_run_after_one_step(s3.0, s3.1, turns);
    lemma_run_after_one_step(s4.0, s4.1, turns);
    lemma_run_after_one_step(s5.0, s5.1, turns);
    lemma_run_unfolds(s6.0, s6.1, turns);
    assert(s0.0.steps.len() == 6);
    assert(s1.0.cursor <= 1 && s1.0.steps == s0.0.steps);
    assert(s2.0.cursor <= 2 && s2.0.steps == s0.0.steps);
    assert(s3.0.cursor <= 3 && s3.0.steps == s0.0.steps);
    assert(s4.0.cursor <= 4 && s4.0.steps == s0.0.steps);
    assert(s5.0.cursor <= 5 && s5.0.steps == s0.0.steps);
    assert(s6.0.pending() is None);
    assert(creation(root, user).run(disk, turns) == s6);
}

/// Where no row belongs to `uuid`, a lookup of `uuid` finds no row.
pub proof fn lemma_no_row_no_match(rows: Seq<UserRowView>, uuid: Seq<char>)
    requires
        unknown_to(rows, uuid),
    ensures
        rows_of(rows, uuid) == Seq::<UserRowView>::empty(),
{
    let found = rows_of(rows, uuid);
    if found.len() > 0 {
        rows.lemma_filter_pred(belongs_to(uuid), 0);
        assert(found.contains(found[0]));
        rows.lemma_filter_contains_rev(belongs_to(uuid), found[0]);
        let i = choose|i: int| 0 <= i < rows.len() && rows[i] == found[0];
        assert(rows[i].uuid != uuid);
    }
    assert(found =~= Seq::<UserRowView>::empty());
}

/// Setting a latest location and looking a user up can be done in either
/// order.
pub proof fn lemma_rows_of_touched(
    rows: Seq<UserRowView>,
    uuid: Seq<char>,
    at: i64,
    who: Seq<char>,
)
    ensures
        rows_of(touched(rows, uuid, at), who) == touched(rows_of(rows, who), uuid, at),
    decreases rows.len(),
{
    if rows.len() == 0 {
        assert(touched(rows, uuid, at) =~= rows);
        reveal(Seq::filter);
        assert(rows.filter(belongs_to(who)) =~= rows);
        assert(touched(rows_of(rows, who), uuid, at) =~= rows);
    } else {
        let init = rows.drop_last();
        let last = rows.last();
        lemma_rows_of_touched(init, uuid, at, who);
        assert(rows =~= init.push(last));
        assert(touched(rows, uuid, at) =~= touched(init, uuid, at).push(
            touched_row(last, uuid, at),
        ));
        init.lemma_filter_push(last, belongs_to(who));
        touched(init, uuid, at).lemma_filter_push(touched_row(last, uuid, at), belongs_to(who));
        if last.uuid == who {
            assert(touched(rows_of(init, who).push(last), uuid, at) =~= touched(
                rows_of(init, who),
                uuid,
                at,
            ).push(touched_row(last, uuid, at)));
        }
    }
}

/// Appending a row for an identifier that no row has keeps the identifiers
/// apart, and the row appended is the one row of that identifier.
pub proof fn lemma_new_row_keeps_ids_distinct(rows: Seq<UserRowView>, row: UserRowView)
    requires
        distinct_ids(rows),
        unknown_to(rows, row.uuid),
    ensures
        distinct_ids(rows.push(row)),
        rows_of(rows.push(row), row.uuid) == seq![row],
{
    let longer = rows.push(row);
    assert forall|i: int, j: int| 0 <= i < j < longer.len() implies longer[i].uuid
        != longer[j].uuid by {
        if j < rows.len() {
            assert(rows[i].uuid != rows[j].uuid);
        } else {
            assert(rows[i].uuid != row.uuid);
        }
    }
    lemma_no_row_no_match(rows, row.uuid);
    rows.lemma_filter_push(row, belongs_to(row.uuid));
    assert(rows_of(longer, row.uuid) =~= seq![row]);
}

/// Laying out the files of a user, on any medium and under any faults.
///
/// The procedure ends. Where it succeeds, no file was at the place of the
/// store before; afterwards the user has an empty store and a track file
/// without points. It succeeds whenever the medium serves every request
/// and the place of the store is free, and fails with `Conflict` when a
/// file is there already, which is then left as it was. No path but those
/// of the user's store and track file is touched.
pub proof fn lemma_file_layout(
    root: Seq<char>,
    uuid: Seq<char>,
    at: i64,
    disk: Disk,
    turns: Seq<Turn>,
)
    ensures
        ({
            let (done, after) = file_layout(root, uuid, at).run(disk, turns);
            let store = location_db_path(root, uuid);
            let track = location_gpx_path(root, uuid);
            let succeeded = done.outcome() == Some(
                Ok::<ReceiptView, StorageError>(ReceiptView { uuid, at }),
            );
            &&& done.outcome() is Some
            &&& succeeded || done.outcome()->0 is Err
            &&& succeeded ==> {
                &&& serves_first(turns, 4)
                &&& !disk.files.contains_key(store)
                &&& has_store(after, root, uuid)
                &&& locations_of(after, root, uuid) == Seq::<LocationRow>::empty()
                &&& after.files.contains_key(track)
                &&& after.files[track] == FileView::Text(empty_track_text())
            }
            &&& serves_first(turns, 4) && !disk.files.contains_key(store) ==> succeeded
            &&& serves_first(turns, 3) && disk.files.contains_key(store) ==> done.outcome()
                == Some(Err::<ReceiptView, StorageError>(StorageError::Conflict))
            &&& disk.files.contains_key(store) ==> after.files[store] == disk.files[store]
            &&& forall|path: Seq<char>|
                path != store && path != track ==> {
                    &&& #[trigger] after.files.contains_key(path) == disk.files.contains_key(path)
                    &&& after.files[path] == disk.files[path]
                }
        }),
{
    // the store and the track file are at two different paths
    lemma_families_disjoint(root, uuid, uuid);
    let s0 = (file_layout(root, uuid, at), disk);
    let s1 = after_one_step(s0.0, s0.1, turns);
    let s2 = after_one_step(s1.0, s1.1, turns);
    let s3 = after_one_step(s2.0, s2.1, turns);
    let s4 = after_one_step(s3.0, s3.1, turns);
    lemma_run_after_one_step(s0.0, s0.1, turns);
    lemma_run_after_one_step(s1.0, s1.1, turns);
    lemma_run_after_one_step(s2.0, s2.1, turns);
    lemma_run_after_one_step(s3.0, s3.1, turns);
    lemma_run_unfolds(s4.0, s4.1, turns);
    assert(s0.0.steps.len() == 4);
    assert(s1.0.cursor <= 1 && s1.0.steps == s0.0.steps);
    assert(s2.0.cursor <= 2 && s2.0.steps == s0.0.steps);
    assert(s3.0.cursor <= 3 && s3.0.steps == s0.0.steps);
    assert(s4.0.pending() is None);
    assert(file_layout(root, uuid, at).run(disk, turns) == s4);
}

/// Users are kept apart when the files of a user are laid out: the store
/// and the track file of the user are at places that no other user has,
/// and whatever faults occur, the store and the track file of every other
/// user are what they were.
pub proof fn lemma_file_layout_is_isolated(
    root: Seq<char>,
    uuid: Seq<char>,
    at: i64,
    disk: Disk,
    turns: Seq<Turn>,
    other: Seq<char>,
)
    requires
        other != uuid,
    ensures
        location_db_path(root, uuid) != location_db_path(root, other),
        location_gpx_path(root, uuid) != location_gpx_path(root, other),
        ({
            let after = file_layout(root, uuid, at).run(disk, turns).1;
            let store = location_db_path(root, other);
            let track = location_gpx_path(root, other);
            &&& after.files.contains_key(store) == disk.files.contains_key(store)
            &&& after.files[store] == disk.files[store]
            &&& after.files.contains_key(track) == disk.files.contains_key(track)
            &&& after.files[track] == disk.files[track]
        }),
{
    lemma_file_layout(root, uuid, at, disk, turns);
    lemma_paths_of_two_users_differ(root, uuid, other);
}

/// Two users share no path: the store and the track file of one are
/// neither the store nor the track file of the other.
pub proof fn lemma_paths_of_two_users_differ(root: Seq<char>, uuid: Seq<char>, other: Seq<char>)
    requires
        other != uuid,
    ensures
        location_db_path(root, uuid) != location_db_path(root, other),
        location_gpx_path(root, uuid) != location_gpx_path(root, other),
        location_db_path(root, uuid) != location_gpx_path(root, other),
        location_gpx_path(root, uuid) != location_db_path(root, other),
{
    lemma_families_disjoint(root, uuid, other);
    lemma_families_disjoint(root, other, uuid);
    if location_db_path(root, uuid) == location_db_path(root, other) {
        lemma_location_db_injective(root, uuid, other);
    }
    if location_gpx_path(root, uuid) == location_gpx_path(root, other) {
        lemma_location_gpx_injective(root, uuid, other);
    }
}

/// Entering a user in the users database, on any medium and under any
/// faults.
///
/// The procedure ends. Where it succeeds, the users database holds the rows
/// it held, in their order, and last the row of the user, with the label as
/// it was given; where no two rows had the same identifier and none had the
/// identifier of the user, that is still so of the old rows and exactly one
/// row is the user's. Where it fails, the users database holds the rows it
/// held. It succeeds whenever the medium serves both requests and the path
/// of the users database holds nothing else; a users database that does
/// not exist yet is created. No other path is touched.
pub proof fn lemma_registration(root: Seq<char>, user: UserView, disk: Disk, turns: Seq<Turn>)
    ensures
        ({
            let (done, after) = registration(root, user).run(disk, turns);
            let users = users_db_path(root);
            let rows = registry_rows(disk, root);
            let succeeded = done.outcome() == Some(
                Ok::<ReceiptView, StorageError>(
                    ReceiptView { uuid: user.uuid, at: user.created_at },
                ),
            );
            &&& done.outcome() is Some
            &&& succeeded || done.outcome()->0 is Err
            &&& succeeded ==> {
                &&& serves_first(turns, 2)
                &&& registry_sound(disk, root)
                &&& after.files.contains_key(users)
                &&& after.files[users] == FileView::Users(rows.push(new_row(user)))
                &&& distinct_ids(rows) && unknown_to(rows, user.uuid) ==> {
                    &&& distinct_ids(registry_rows(after, root))
                    &&& rows_of(registry_rows(after, root), user.uuid) == seq![new_row(user)]
                }
            }
            &&& !succeeded ==> registry_rows(after, root) == registry_rows(disk, root)
            &&& serves_first(turns, 2) && registry_sound(disk, root) ==> succeeded
            &&& registry_sound(disk, root) ==> registry_sound(after, root)
            &&& forall|path: Seq<char>|
                path != users ==> {
                    &&& #[trigger] after.files.contains_key(path) == disk.files.contains_key(path)
                    &&& after.files[path] == disk.files[path]
                }
        }),
{
    let s0 = (registration(root, user), disk);
    let s1 = after_one_step(s0.0, s0.1, turns);
    let s2 = after_one_step(s1.0, s1.1, turns);
    lemma_run_after_one_step(s0.0, s0.1, turns);
    lemma_run_after_one_step(s1.0, s1.1, turns);
    lemma_run_unfolds(s2.0, s2.1, turns);
    assert(s0.0.steps.len() == 2);
    assert(s1.0.cursor <= 1 && s1.0.steps == s0.0.steps);
    assert(s2.0.pending() is None);
    assert(registration(root, user).run(disk, turns) == s2);
    let rows = registry_rows(disk, root);
    if distinct_ids(rows) && unknown_to(rows, user.uuid) {
        lemma_new_row_keeps_ids_distinct(rows, new_row(user));
    }
}

/// A medium on which nothing has been written is consistent.
pub proof fn lemma_blank_is_consistent(root: Seq<char>)
    ensures
        consistent(Disk::blank(), root),
{
}

/// Creating a user keeps the users database and the stores in agreement,
/// whatever faults occur.
pub proof fn lemma_creation_keeps_consistency(
    root: Seq<char>,
    user: UserView,
    disk: Disk,
    turns: Seq<Turn>,
)
    requires
        consistent(disk, root),
    ensures
        consistent(creation(root, user).run(disk, turns).1, root),
{
    let (done, after) = creation(root, user).run(disk, turns);
    lemma_creation(root, user, disk, turns);
    lemma_run_keeps_files(creation(root, user), disk, turns);
    let before_rows = registry_rows(disk, root);
    let after_rows = registry_rows(after, root);
    assert forall|i: int| 0 <= i < after_rows.len() implies has_store(
        after,
        root,
        #[trigger] after_rows[i].uuid,
    ) by {
        let owner = after_rows[i].uuid;
        if i < before_rows.len() {
            assert(after_rows[i] == before_rows[i]);
            assert(has_store(disk, root, owner));
            lemma_families_disjoint(root, owner, user.uuid);
            assert(disk.files.contains_key(location_db_path(root, owner)));
            assert(after.files.contains_key(location_db_path(root, owner)));
        }
    }
}

/// Taking in a location keeps the users database and the stores in
/// agreement, whatever faults occur.
pub proof fn lemma_ingestion_keeps_consistency(
    root: Seq<char>,
    uuid: Seq<char>,
    location: Location,
    gathered_at: i64,
    disk: Disk,
    turns: Seq<Turn>,
)
    requires
        consistent(disk, root),
    ensures
        consistent(ingestion(root, uuid, location, gathered_at).run(disk, turns).1, root),
{
    let after = ingestion(root, uuid, location, gathered_at).run(disk, turns).1;
    lemma_ingestion(root, uuid, location, gathered_at, disk, turns);
    lemma_families_disjoint(root, uuid, uuid);
    let before_rows = registry_rows(disk, root);
    let after_rows = registry_rows(after, root);
    assert(after_rows.len() == before_rows.len());
    assert forall|i: int| 0 <= i < after_rows.len() implies has_store(
        after,
        root,
        #[trigger] after_rows[i].uuid,
    ) by {
        let owner = after_rows[i].uuid;
        assert(owner == before_rows[i].uuid);
        assert(has_store(disk, root, owner));
        lemma_families_disjoint(root, owner, uuid);
    }
}

/// A user that was created is there: on a consistent medium, after a
/// creation that succeeded, a read of the user yields the user as it was
/// created, the list of users is the former list with the user at its end,
/// exactly one row of the users database is the user's, and a location for
/// the user is taken in when the medium serves the request.
pub proof fn lemma_created_user_is_usable(
    root: Seq<char>,
    user: UserView,
    disk: Disk,
    turns: Seq<Turn>,
    location: Location,
    gathered_at: i64,
)
    requires
        consistent(disk, root),
        creation(root, user).run(disk, turns).0.outcome() == Some(
            Ok::<ReceiptView, StorageError>(ReceiptView { uuid: user.uuid, at: user.created_at }),
        ),
    ensures
        ({
            let after = creation(root, user).run(disk, turns).1;
            &&& consistent(after, root)
            &&& read_user(after, root, user.uuid) == Ok::<UserView, StorageError>(
                UserView { last_location: None, ..user },
            )
            &&& read_users(after, root) == Ok::<Seq<Seq<char>>, StorageError>(
                uuids_of(registry_rows(disk, root)).push(user.uuid),
            )
            &&& rows_of(registry_rows(after, root), user.uuid) == seq![new_row(user)]
            &&& read_locations(after, root, user.uuid) == Ok::<Seq<LocationRow>, StorageError>(
                Seq::empty(),
            )
            &&& ingestion(root, user.uuid, location, gathered_at).run(
                after,
                Seq::empty(),
            ).0.outcome() == Some(
                Ok::<ReceiptView, StorageError>(ReceiptView { uuid: user.uuid, at: gathered_at }),
            )
        }),
{
    let after = creation(root, user).run(disk, turns).1;
    lemma_creation(root, user, disk, turns);
    lemma_creation_keeps_consistency(root, user, disk, turns);
    let rows = registry_rows(disk, root);
    assert forall|i: int| 0 <= i < rows.len() implies (#[trigger] rows[i]).uuid != user.uuid by {
        assert(has_store(disk, root, rows[i].uuid));
    }
    lemma_no_row_no_match(rows, user.uuid);
    rows.lemma_filter_push(new_row(user), belongs_to(user.uuid));
    assert(rows_of(rows.push(new_row(user)), user.uuid)[0] == new_row(user));
    assert(uuids_of(rows.push(new_row(user))) =~= uuids_of(rows).push(user.uuid));
    lemma_ingestion(root, user.uuid, location, gathered_at, after, Seq::empty());
}

/// A creation that failed registered nobody: the users database holds the
/// rows it held, and a user who was not found before is not found after.
pub proof fn lemma_failed_creation_registers_nobody(
    root: Seq<char>,
    user: UserView,
    disk: Disk,
    turns: Seq<Turn>,
    who: Seq<char>,
)
    requires
        registry_sound(disk, root),
        creation(root, user).run(disk, turns).0.outcome()->0 is Err,
    ensures
        ({
            let after = creation(root, user).run(disk, turns).1;
            &&& registry_rows(after, root) == registry_rows(disk, root)
            &&& read_user(disk, root, who) is Err && read_user(disk, root, who)->Err_0 is NotFound
                ==> read_user(after, root, who) is Err && read_user(
                after,
                root,
                who,
            )->Err_0 is NotFound
        }),
{
    lemma_creation(root, user, disk, turns);
    let rows = registry_rows(disk, root);
    if !disk.files.contains_key(users_db_path(root)) {
        reveal(Seq::filter);
        assert(rows.filter(belongs_to(who)) =~= rows);
    }
}

/// Identifiers are never handed out twice: when two creations have
/// succeeded, the second on a medium that still has the files the first one
/// left, the two users have different identifiers.
pub proof fn lemma_created_ids_differ(
    root: Seq<char>,
    first: UserView,
    disk: Disk,
    first_turns: Seq<Turn>,
    second: UserView,
    later: Disk,
    second_turns: Seq<Turn>,
)
    requires
        creation(root, first).run(disk, first_turns).0.outcome() == Some(
            Ok::<ReceiptView, StorageError>(
                ReceiptView { uuid: first.uuid, at: first.created_at },
            ),
        ),
        keeps_files(creation(root, first).run(disk, first_turns).1, later),
        creation(root, second).run(later, second_turns).0.outcome() == Some(
            Ok::<ReceiptView, StorageError>(
                ReceiptView { uuid: second.uuid, at: second.created_at },
            ),
        ),
    ensures
        first.uuid != second.uuid,
{
    lemma_creation(root, first, disk, first_turns);
    lemma_creation(root, second, later, second_turns);
    let left = creation(root, first).run(disk, first_turns).1;
    assert(left.files.contains_key(location_db_path(root, first.uuid)));
    assert(later.files.contains_key(location_db_path(root, first.uuid)));
}

/// Users are kept apart when a location is taken in: whatever faults
/// occur, neither the locations nor the row of any other user change.
pub proof fn lemma_ingestion_is_isolated(
    root: Seq<char>,
    uuid: Seq<char>,
    location: Location,
    gathered_at: i64,
    disk: Disk,
    turns: Seq<Turn>,
    other: Seq<char>,
)
    requires
        other != uuid,
    ensures
        ({
            let after = ingestion(root, uuid, location, gathered_at).run(disk, turns).1;
            &&& read_locations(after, root, other) == read_locations(disk, root, other)
            &&& read_user(after, root, other) == read_user(disk, root, other)
        }),
{
    lemma_ingestion(root, uuid, location, gathered_at, disk, turns);
    lemma_paths_of_two_users_differ(root, uuid, other);
    lemma_families_disjoint(root, other, uuid);
    let users = users_db_path(root);
    if disk.files.contains_key(users) && disk.files[users] is Users {
        let rows = disk.files[users]->Users_0;
        let at = seconds_of(gathered_at);
        lemma_rows_of_touched(rows, uuid, at, other);
        let found = rows_of(rows, other);
        assert forall|i: int| 0 <= i < found.len() implies touched_row(
            #[trigger] found[i],
            uuid,
            at,
        ) == found[i] by {
            rows.lemma_filter_pred(belongs_to(other), i);
        }
        assert(touched(found, uuid, at) =~= found);
    }
}

/// Users are kept apart when a user is created: whatever faults occur, the
/// locations and the track file of every other user stay as they were.
pub proof fn lemma_creation_is_isolated(
    root: Seq<char>,
    user: UserView,
    disk: Disk,
    turns: Seq<Turn>,
    other: Seq<char>,
)
    requires
        other != user.uuid,
    ensures
        ({
            let after = creation(root, user).run(disk, turns).1;
            let track = location_gpx_path(root, other);
            &&& read_locations(after, root, other) == read_locations(disk, root, other)
            &&& after.files.contains_key(track) == disk.files.contains_key(track)
            &&& after.files[track] == disk.files[track]
        }),
{
    lemma_creation(root, user, disk, turns);
    lemma_paths_of_two_users_differ(root, user.uuid, other);
    lemma_families_disjoint(root, other, user.uuid);
    let after = creation(root, user).run(disk, turns).1;
    let store = location_db_path(root, other);
    let track = location_gpx_path(root, other);
    assert(after.files.contains_key(store) == disk.files.contains_key(store));
    assert(after.files.contains_key(track) == disk.files.contains_key(track));
}

/// Neither of the two procedures that write makes a request that writes a
/// whole file over a location store.
pub proof fn lemma_writes_spare_stores(root: Seq<char>, procedure: ProcedureView, uuid: Seq<char>)
    requires
        writes_for_library(root, procedure),
    ensures
        spares_throughout(procedure, location_db_path(root, uuid)),
{
    let store = location_db_path(root, uuid);
    assert forall|i: int| 0 <= i < procedure.steps.len() implies spares(
        (#[trigger] procedure.steps[i]).action,
        store,
    ) by {
        if exists|user: UserView| procedure == creation(root, user) {
            let user = choose|user: UserView| procedure == creation(root, user);
            lemma_families_disjoint(root, uuid, user.uuid);
        }
    }
}

/// The locations of a user are an append-only log: after a creation or an
/// ingestion, whatever faults occur, a read that yielded rows before yields
/// rows that begin with them.
pub proof fn lemma_locations_are_append_only(
    root: Seq<char>,
    procedure: ProcedureView,
    disk: Disk,
    turns: Seq<Turn>,
    uuid: Seq<char>,
)
    requires
        writes_for_library(root, procedure),
    ensures
        read_locations(disk, root, uuid) is Ok ==> {
            &&& read_locations(procedure.run(disk, turns).1, root, uuid) is Ok
            &&& read_locations(disk, root, uuid)->Ok_0.is_prefix_of(
                read_locations(procedure.run(disk, turns).1, root, uuid)->Ok_0,
            )
        },
{
    lemma_writes_spare_stores(root, procedure, uuid);
    lemma_run_grows_store(procedure, disk, turns, root, uuid);
}

/// The latest location is recorded: when a location for a registered user
/// is taken in and the medium serves both requests, a read of the user
/// yields the user with the time of that location, in whole seconds.
pub proof fn lemma_latest_location_is_recorded(
    root: Seq<char>,
    uuid: Seq<char>,
    location: Location,
    gathered_at: i64,
    disk: Disk,
    user: UserView,
)
    requires
        consistent(disk, root),
        read_user(disk, root, uuid) == Ok::<UserView, StorageError>(user),
        seconds_of(gathered_at) != 0,
    ensures
        ({
            let (done, after) = ingestion(root, uuid, location, gathered_at).run(
                disk,
                Seq::empty(),
            );
            &&& done.outcome() == Some(
                Ok::<ReceiptView, StorageError>(ReceiptView { uuid, at: gathered_at }),
            )
            &&& read_user(after, root, uuid) == Ok::<UserView, StorageError>(
                UserView { last_location: Some(seconds_of(gathered_at)), ..user },
            )
        }),
{
    let turns = Seq::<Turn>::empty();
    let users = users_db_path(root);
    let rows = registry_rows(disk, root);
    let found = rows_of(rows, uuid);
    let at = seconds_of(gathered_at);
    assert(disk.files.contains_key(users) && disk.files[users] is Users);
    assert(found.len() > 0);
    assert(found.contains(found[0]));
    rows.lemma_filter_contains_rev(belongs_to(uuid), found[0]);
    let i = choose|i: int| 0 <= i < rows.len() && rows[i] == found[0];
    assert(has_store(disk, root, rows[i].uuid));
    lemma_ingestion(root, uuid, location, gathered_at, disk, turns);
    lemma_families_disjoint(root, uuid, uuid);
    lemma_rows_of_touched(rows, uuid, at, uuid);
    assert(touched(found, uuid, at)[0] == touched_row(found[0], uuid, at));
}

/// The array without members is `[]`.
pub proof fn lemma_empty_array()
    ensures
        json_array(Seq::empty()) == "[]"@,
{
    reveal_strlit("[");
    reveal_strlit("]");
    reveal_strlit("[]");
    assert(joined(Seq::<Seq<char>>::empty()) =~= Seq::<char>::empty());
    assert(json_array(Seq::empty()) =~= "[]"@);
}

/// Before anybody has registered: where the users database has never been
/// written, a read of the list and a read of any user yield
/// `NotFound(Registry)`, and the response to a request for the list is the
/// empty array, not an error.
pub proof fn lemma_nobody_has_registered(root: Seq<char>, disk: Disk, uuid: Seq<char>)
    requires
        !disk.files.contains_key(users_db_path(root)),
    ensures
        read_users(disk, root) == Err::<Seq<Seq<char>>, StorageError>(
            StorageError::NotFound(Missing::Registry),
        ),
        read_user(disk, root, uuid) == Err::<UserView, StorageError>(
            StorageError::NotFound(Missing::Registry),
        ),
        users_reply(disk.perform(ActionView::SelectUuids { path: users_db_path(root) }).1) == (
        HttpReplyView { status: 200, body: "[]"@ }),
{
    lemma_empty_array();
}

/// A users database without rows: a read of the list yields the empty
/// list, not a fault, and a read of any user yields `NotFound(User)`.
pub proof fn lemma_nobody_is_registered(root: Seq<char>, disk: Disk, uuid: Seq<char>)
    requires
        disk.files.contains_key(users_db_path(root)),
        disk.files[users_db_path(root)] == FileView::Users(Seq::empty()),
    ensures
        read_users(disk, root) == Ok::<Seq<Seq<char>>, StorageError>(Seq::empty()),
        read_user(disk, root, uuid) == Err::<UserView, StorageError>(
            StorageError::NotFound(Missing::User),
        ),
        users_reply(disk.perform(ActionView::SelectUuids { path: users_db_path(root) }).1) == (
        HttpReplyView { status: 200, body: "[]"@ }),
{
    lemma_empty_array();
    let rows = Seq::<UserRowView>::empty();
    assert(uuids_of(rows) =~= Seq::<Seq<char>>::empty());
    lemma_no_row_no_match(rows, uuid);
}

/// A fault is never passed over in silence at a step that must succeed:
/// when the medium turns the pending request of such a step away, the run
/// ends there with that fault, `Busy` for a medium that is busy and
/// `StorageFault` for one that fails, and the medium is as it was.
pub proof fn lemma_refused_step_ends_the_run(
    procedure: ProcedureView,
    disk: Disk,
    turns: Seq<Turn>,
)
    requires
        procedure.pending() is Some,
        procedure.steps[procedure.cursor as int].required,
        !(turn_at(turns, procedure.cursor) is Served),
    ensures
        procedure.run(disk, turns).1 == disk,
        procedure.run(disk, turns).0.outcome() == Some(
            Err::<ReceiptView, StorageError>(
                if turn_at(turns, procedure.cursor) is Busy {
                    StorageError::Busy
                } else {
                    StorageError::StorageFault
                },
            ),
        ),
{
    lemma_run_unfolds(procedure, disk, turns);
    let (next, reply) = disk.serve(procedure.pending()->0, turn_at(turns, procedure.cursor));
    lemma_run_unfolds(procedure.advance(reply), next, turns);
}

/// Recording the time of the latest location is idempotent, and of two
/// recordings the later one stands: the request made twice leaves the
/// medium as the request made once, and after two requests for one user the
/// medium is as after the second alone.
pub proof fn lemma_last_writer_wins(
    disk: Disk,
    path: Seq<char>,
    uuid: Seq<char>,
    earlier: i64,
    later: i64,
)
    ensures
        ({
            let first = ActionView::SetLastLocation { path, uuid, at: earlier };
            let second = ActionView::SetLastLocation { path, uuid, at: later };
            &&& disk.perform(first).0.perform(first).0 == disk.perform(first).0
            &&& disk.perform(first).0.perform(second).0 == disk.perform(second).0
        }),
{
    let first = ActionView::SetLastLocation { path, uuid, at: earlier };
    let second = ActionView::SetLastLocation { path, uuid, at: later };
    if disk.files.contains_key(path) && disk.files[path] is Users {
        let rows = disk.files[path]->Users_0;
        assert(touched(touched(rows, uuid, earlier), uuid, earlier) =~= touched(
            rows,
            uuid,
            earlier,
        ));
        assert(touched(touched(rows, uuid, earlier), uuid, later) =~= touched(rows, uuid, later));
        assert(disk.perform(first).0.perform(first).0.files =~= disk.perform(first).0.files);
        assert(disk.perform(first).0.perform(second).0.files =~= disk.perform(second).0.files);
    }
}

/// Two writers for one user: when the medium turns one of them away as
/// busy while it serves the other, the one turned away learns of it,
/// nothing of its location is written, and when it tries again both
/// locations are in the store, the one that was served first before the
/// other.
pub proof fn lemma_busy_writer_succeeds_on_retry(
    root: Seq<char>,
    uuid: Seq<char>,
    served: Location,
    served_at: i64,
    delayed: Location,
    delayed_at: i64,
    disk: Disk,
)
    requires
        has_store(disk, root, uuid),
    ensures
        ({
            let turned_away = ingestion(root, uuid, delayed, delayed_at).run(
                disk,
                seq![Turn::Busy],
            );
            let first = ingestion(root, uuid, served, served_at).run(
                turned_away.1,
                Seq::empty(),
            );
            let second = ingestion(root, uuid, delayed, delayed_at).run(first.1, Seq::empty());
            &&& turned_away.0.outcome() == Some(
                Err::<ReceiptView, StorageError>(StorageError::Busy),
            )
            &&& turned_away.1 == disk
            &&& first.0.outcome() == Some(
                Ok::<ReceiptView, StorageError>(ReceiptView { uuid, at: served_at }),
            )
            &&& second.0.outcome() == Some(
                Ok::<ReceiptView, StorageError>(ReceiptView { uuid, at: delayed_at }),
            )
            &&& locations_of(second.1, root, uuid) == locations_of(disk, root, uuid).push(
                location_row(served, served_at),
            ).push(location_row(delayed, delayed_at))
        }),
{
    let busy = seq![Turn::Busy];
    assert(turn_at(busy, 0) is Busy);
    lemma_ingestion(root, uuid, delayed, delayed_at, disk, busy);
    lemma_ingestion(root, uuid, served, served_at, disk, Seq::empty());
    let first = ingestion(root, uuid, served, served_at).run(disk, Seq::empty());
    lemma_ingestion(root, uuid, delayed, delayed_at, first.1, Seq::empty());
}

/// Over the whole life of a medium: after any number of creations and
/// ingestions, whatever faults occurred, every file that was there is
/// there, the users database and the stores agree if they did, and each
/// user's locations begin with the locations the user had.
pub proof fn lemma_history(root: Seq<char>, disk: Disk, runs: Seq<Run>, uuid: Seq<char>)
    requires
        forall|i: int|
            0 <= i < runs.len() ==> writes_for_library(root, (#[trigger] runs[i]).procedure),
    ensures
        keeps_files(disk, after_all(disk, runs)),
        consistent(disk, root) ==> consistent(after_all(disk, runs), root),
        has_store(disk, root, uuid) ==> has_store(after_all(disk, runs), root, uuid),
        locations_of(disk, root, uuid).is_prefix_of(
            locations_of(after_all(disk, runs), root, uuid),
        ),
    decreases runs.len(),
{
    let first = locations_of(disk, root, uuid);
    if runs.len() == 0 {
        assert(first =~= first.subrange(0, first.len() as int));
    } else {
        let earlier = runs.drop_last();
        let last = runs.last();
        let before = after_all(disk, earlier);
        let after = after_all(disk, runs);
        assert forall|i: int| 0 <= i < earlier.len() implies writes_for_library(
            root,
            (#[trigger] earlier[i]).procedure,
        ) by {
            assert(earlier[i] == runs[i]);
        }
        lemma_history(root, disk, earlier, uuid);
        assert(writes_for_library(root, last.procedure));
        lemma_run_keeps_files(last.procedure, before, last.turns);
        lemma_writes_spare_stores(root, last.procedure, uuid);
        lemma_run_grows_store(last.procedure, before, last.turns, root, uuid);
        if consistent(disk, root) {
            if exists|user: UserView| last.procedure == creation(root, user) {
                let user = choose|user: UserView| last.procedure == creation(root, user);
                lemma_creation_keeps_consistency(root, user, before, last.turns);
            } else {
                let (who, location, gathered_at) = choose|
                    who: Seq<char>,
                    location: Location,
                    gathered_at: i64,
                |
                    last.procedure == ingestion(root, who, location, gathered_at);
                lemma_ingestion_keeps_consistency(
                    root,
                    who,
                    location,
                    gathered_at,
                    before,
                    last.turns,
                );
            }
        }
        let second = locations_of(before, root, uuid);
        let third = locations_of(after, root, uuid);
        assert(first =~= third.subrange(0, first.len() as int)) by {
            assert(first =~= second.subrange(0, first.len() as int));
            assert(second =~= third.subrange(0, second.len() as int));
        }
    }
}

} // verus!
