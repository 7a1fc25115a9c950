use broodkruimel::api::geospatial::keep_bits;
use broodkruimel::api::geospatial::Location;
use broodkruimel::api::user::contains_quote;
use broodkruimel::api::user::create_user;
use broodkruimel::api::user::failure_response;
use broodkruimel::api::user::get_user;
use broodkruimel::api::user::get_users;
use broodkruimel::api::user::render_json_array;
use broodkruimel::api::user::user_created;
use broodkruimel::api::user::user_shown;
use broodkruimel::api::user::User;
use broodkruimel::api::user::UserRequest;
use broodkruimel::error::Invalid;
use broodkruimel::error::Missing;
use broodkruimel::error::StorageError;
use broodkruimel::filesystem::medium::Action;
use broodkruimel::filesystem::medium::Reply;
use broodkruimel::filesystem::medium::UserRow;
use broodkruimel::filesystem::procedure::Receipt;
use broodkruimel::ident::check_user_id;
use broodkruimel::layout::Layout;

const ALICE: &str = "936da01f-9abd-4d9d-80c7-02af85c822a8";
const BOB: &str = "0b0b0b0b-0000-4000-8000-000000000001";

fn alice_row() -> UserRow {
    UserRow {
        uuid: String::from(ALICE),
        device_name: String::from("phone-1"),
        created_at: 1_431_648_000,
        last_location: 0,
    }
}

#[test]
fn quotes_are_found() {
    assert!(!contains_quote(""));
    assert!(!contains_quote("phone-1"));
    assert!(!contains_quote("back`tick and «guillemets»"));
    assert!(contains_quote("'"));
    assert!(contains_quote("\""));
    assert!(contains_quote("phone'; DROP TABLE users; --"));
    assert!(contains_quote("ends with \""));
    assert!(contains_quote("é'"));
}

#[test]
fn json_array_of_identifiers() {
    assert_eq!(render_json_array(&vec![]), "[]");
    assert_eq!(
        render_json_array(&vec![String::from(ALICE)]),
        "[\"936da01f-9abd-4d9d-80c7-02af85c822a8\"]"
    );
    assert_eq!(
        render_json_array(&vec![String::from(ALICE), String::from(BOB)]),
        "[\"936da01f-9abd-4d9d-80c7-02af85c822a8\",\"0b0b0b0b-0000-4000-8000-000000000001\"]"
    );
    assert_eq!(
        render_json_array(&vec![String::from("a"), String::new(), String::from("c")]),
        "[\"a\",\"\",\"c\"]"
    );
}

#[test]
fn create_user_refuses_quotes() {
    let layout = Layout::standard();
    for label in ["it's", "say \"hi\"", "'", "a\"b'c"] {
        let request = UserRequest {
            device_id: String::from(label),
        };
        let refused = create_user(&layout, request);
        assert!(matches!(
            refused,
            Err(StorageError::InvalidInput(Invalid::Label))
        ));
    }
}

#[test]
fn create_user_draws_an_identifier() {
    let layout = Layout::standard();
    let request = UserRequest {
        device_id: String::from("phone-1"),
    };
    let (user, procedure) = create_user(&layout, request).unwrap();
    assert_eq!(user.device_name, "phone-1");
    assert_eq!(user.last_location, None);
    assert_eq!(user.uuid.len(), 36);
    assert!(check_user_id(user.uuid.as_str()));
    assert_ne!(user.uuid, "phone-1");
    assert_eq!(user.uuid.as_bytes()[14], b'4');
    assert!(matches!(user.uuid.as_bytes()[19], b'8' | b'9' | b'a' | b'b'));
    // the clock stands after the year 2020
    assert!(user.created_at > 1_577_836_800);
    assert!(user.created_at < 1_577_836_800_000);
    assert!(procedure.outcome().is_none());
    let first = procedure.pending().unwrap();
    assert_eq!(first.path(), layout.user_db_dir(user.uuid.as_str()).unwrap());
}

#[test]
fn create_user_draws_different_identifiers() {
    let layout = Layout::standard();
    let mut seen: Vec<String> = Vec::new();
    for _ in 0..50 {
        let request = UserRequest {
            device_id: String::from("phone"),
        };
        let (user, _) = create_user(&layout, request).unwrap();
        assert!(!seen.contains(&user.uuid));
        seen.push(user.uuid);
    }
}

#[test]
fn new_user_keeps_the_label() {
    let before = std::time::UNIX_EPOCH.elapsed().unwrap().as_secs() as i64;
    let user = User::new(String::from("tablet in the kitchen")).unwrap();
    let after = std::time::UNIX_EPOCH.elapsed().unwrap().as_secs() as i64;
    assert_eq!(user.device_name, "tablet in the kitchen");
    assert_eq!(user.last_location, None);
    assert!(check_user_id(user.uuid.as_str()));
    assert!(before <= user.created_at && user.created_at <= after);
    let other = User::new(String::from("tablet in the kitchen")).unwrap();
    assert_ne!(user.uuid, other.uuid);
}

#[test]
fn registered_user_takes_whole_seconds_of_the_reading() {
    let user = User::registered(
        String::from(ALICE),
        String::from("phone-1"),
        Some(1_431_648_000_999),
    );
    assert_eq!(
        user,
        Ok(User {
            uuid: String::from(ALICE),
            device_name: String::from("phone-1"),
            created_at: 1_431_648_000,
            last_location: None,
        })
    );
    let at_the_epoch = User::registered(String::from(ALICE), String::new(), Some(999)).unwrap();
    assert_eq!(at_the_epoch.created_at, 0);
    let latest = User::registered(String::from(ALICE), String::new(), Some(i64::MAX as u128));
    assert_eq!(latest.unwrap().created_at, 9_223_372_036_854_775);
}

#[test]
fn registered_user_needs_a_reading() {
    assert_eq!(
        User::registered(String::from(ALICE), String::from("phone-1"), None),
        Err(StorageError::StorageFault)
    );
    assert_eq!(
        User::registered(
            String::from(ALICE),
            String::from("phone-1"),
            Some(i64::MAX as u128 + 1)
        ),
        Err(StorageError::StorageFault)
    );
}

#[test]
fn user_with_identity_is_what_it_was_given() {
    let user = User::with_identity(String::from(ALICE), String::from("phone-1"), 1_431_648_000);
    assert_eq!(
        user,
        User {
            uuid: String::from(ALICE),
            device_name: String::from("phone-1"),
            created_at: 1_431_648_000,
            last_location: None,
        }
    );
}

#[test]
fn user_created_answers_201_with_the_identifier() {
    let reply = user_created(Ok(Receipt {
        uuid: String::from(ALICE),
        at: 1_431_648_000,
    }));
    assert_eq!(reply.status, 201);
    assert_eq!(reply.body, ALICE);
}

#[test]
fn user_created_reports_the_fault() {
    let busy = user_created(Err(StorageError::Busy));
    assert_eq!(busy.status, 503);
    assert_eq!(busy.body, StorageError::Busy.message());
    let conflict = user_created(Err(StorageError::Conflict));
    assert_eq!(conflict.status, 409);
    let fault = user_created(Err(StorageError::StorageFault));
    assert_eq!(fault.status, 500);
    assert_eq!(fault.body, StorageError::StorageFault.message());
}

#[test]
fn failure_response_for_each_fault() {
    let invalid = failure_response(StorageError::InvalidInput(Invalid::Label));
    assert_eq!(invalid.status, 400);
    assert_eq!(
        invalid.body,
        "Device ID can't contain special characters (', \")."
    );
    assert_eq!(
        failure_response(StorageError::InvalidInput(Invalid::Coordinate)).status,
        400
    );
    assert_eq!(
        failure_response(StorageError::InvalidInput(Invalid::Identifier)).status,
        400
    );
    let absent = failure_response(StorageError::NotFound(Missing::User));
    assert_eq!(absent.status, 500);
    assert_eq!(absent.body, "User not found on the server.");
    let nobody = failure_response(StorageError::NotFound(Missing::Registry));
    assert_eq!(nobody.status, 500);
    assert_eq!(nobody.body, "There are no users on this server yet!");
    let no_store = failure_response(StorageError::NotFound(Missing::Store));
    assert_eq!(no_store.status, 500);
    assert_eq!(no_store.body, "User has no location database");
    assert_eq!(failure_response(StorageError::Conflict).status, 409);
    assert_eq!(failure_response(StorageError::Busy).status, 503);
    assert_eq!(failure_response(StorageError::StorageFault).status, 500);
}

#[test]
fn get_users_lists_identifiers() {
    let reply = get_users(Reply::Uuids(vec![String::from(ALICE), String::from(BOB)]));
    assert_eq!(reply.status, 200);
    assert_eq!(
        reply.body,
        "[\"936da01f-9abd-4d9d-80c7-02af85c822a8\",\"0b0b0b0b-0000-4000-8000-000000000001\"]"
    );
}

#[test]
fn get_users_without_registrations_is_empty_not_an_error() {
    let never_written = get_users(Reply::Missing);
    assert_eq!(never_written.status, 200);
    assert_eq!(never_written.body, "[]");
    let no_rows = get_users(Reply::Uuids(vec![]));
    assert_eq!(no_rows.status, 200);
    assert_eq!(no_rows.body, "[]");
}

#[test]
fn get_users_reports_faults() {
    for reply in [
        Reply::Busy,
        Reply::Fault,
        Reply::Done,
        Reply::Exists,
        Reply::Users(vec![]),
        Reply::Locations(vec![]),
    ] {
        let answer = get_users(reply);
        assert_eq!(answer.status, 500);
        assert_eq!(
            answer.body,
            "Could not fetch users. Please try again later."
        );
    }
}

#[test]
fn get_user_shows_the_user() {
    let reply = get_user(String::from(ALICE), Reply::Users(vec![alice_row()]));
    assert_eq!(reply.status, 200);
    assert_eq!(
        reply.body,
        "UUID: 936da01f-9abd-4d9d-80c7-02af85c822a8\nDEVICE NAME: phone-1\nCREATED AT: 2015-05-15 00:00:00 UTC"
    );
}

#[test]
fn get_user_renders_the_epoch() {
    let mut row = alice_row();
    row.created_at = 0;
    let reply = get_user(String::from(ALICE), Reply::Users(vec![row]));
    assert_eq!(reply.status, 200);
    assert!(reply.body.ends_with("\nCREATED AT: 1970-01-01 00:00:00 UTC"));
}

#[test]
fn get_user_with_a_time_outside_the_calendar_is_a_fault() {
    for created_at in [i64::MAX, i64::MIN] {
        let mut row = alice_row();
        row.created_at = created_at;
        let reply = get_user(String::from(ALICE), Reply::Users(vec![row]));
        assert_eq!(reply.status, 500);
        assert_eq!(reply.body, StorageError::StorageFault.message());
    }
}

#[test]
fn get_user_unknown_user() {
    let reply = get_user(String::from(BOB), Reply::Users(vec![]));
    assert_eq!(reply.status, 500);
    assert_eq!(reply.body, "User not found on the server.");
}

#[test]
fn get_user_before_anybody_registered() {
    let reply = get_user(String::from(ALICE), Reply::Missing);
    assert_eq!(reply.status, 500);
    assert_eq!(reply.body, "There are no users on this server yet!");
}

#[test]
fn get_user_busy_medium() {
    let reply = get_user(String::from(ALICE), Reply::Busy);
    assert_eq!(reply.status, 503);
}

#[test]
fn get_user_answer_for_another_user_is_a_fault() {
    let reply = get_user(String::from(BOB), Reply::Users(vec![alice_row()]));
    assert_eq!(reply.status, 500);
    assert_eq!(reply.body, StorageError::StorageFault.message());
}

#[test]
fn user_shown_takes_the_rendering_as_given() {
    let user = User::with_identity(String::from(ALICE), String::from("phone-1"), 7);
    let shown = user_shown(&user, Some(String::from("some day")));
    assert_eq!(shown.status, 200);
    assert_eq!(
        shown.body,
        "UUID: 936da01f-9abd-4d9d-80c7-02af85c822a8\nDEVICE NAME: phone-1\nCREATED AT: some day"
    );
    let unknown = user_shown(&user, None);
    assert_eq!(unknown.status, 500);
}

#[test]
fn from_uuid_reads_the_row() {
    let mut row = alice_row();
    row.last_location = 1_700_000_000;
    let user = User::from_uuid(String::from(ALICE), Reply::Users(vec![row])).unwrap();
    assert_eq!(user.uuid, ALICE);
    assert_eq!(user.device_name, "phone-1");
    assert_eq!(user.created_at, 1_431_648_000);
    assert_eq!(user.last_location, Some(1_700_000_000));
}

#[test]
fn from_uuid_reads_zero_as_no_location() {
    let user = User::from_uuid(String::from(ALICE), Reply::Users(vec![alice_row()])).unwrap();
    assert_eq!(user.last_location, None);
}

#[test]
fn from_uuid_takes_the_first_row() {
    let mut second = alice_row();
    second.device_name = String::from("phone-2");
    let user = User::from_uuid(
        String::from(ALICE),
        Reply::Users(vec![alice_row(), second]),
    )
    .unwrap();
    assert_eq!(user.device_name, "phone-1");
}

#[test]
fn from_uuid_reports_each_fault() {
    let uuid = || String::from(ALICE);
    assert_eq!(
        User::from_uuid(uuid(), Reply::Users(vec![])),
        Err(StorageError::NotFound(Missing::User))
    );
    assert_eq!(
        User::from_uuid(uuid(), Reply::Missing),
        Err(StorageError::NotFound(Missing::Registry))
    );
    assert_eq!(
        User::from_uuid(uuid(), Reply::Busy),
        Err(StorageError::Busy)
    );
    assert_eq!(
        User::from_uuid(uuid(), Reply::Fault),
        Err(StorageError::StorageFault)
    );
    assert_eq!(
        User::from_uuid(uuid(), Reply::Done),
        Err(StorageError::StorageFault)
    );
    assert_eq!(
        User::from_uuid(uuid(), Reply::Uuids(vec![uuid()])),
        Err(StorageError::StorageFault)
    );
    assert_eq!(
        User::from_uuid(String::from(BOB), Reply::Users(vec![alice_row()])),
        Err(StorageError::StorageFault)
    );
}

#[test]
fn location_keeps_its_bits() {
    let location = Location::from_bits(52.09f64.to_bits(), 5.12f64.to_bits());
    assert_eq!(f64::from_bits(location.lat()), 52.09);
    assert_eq!(f64::from_bits(location.lon()), 5.12);
    assert!(location.check_numeric());
}

#[test]
fn kept_bits_of_the_two_zeros() {
    assert_eq!(keep_bits(0), 0);
    assert_eq!(keep_bits((-0.0f64).to_bits()), 0);
    assert_eq!(keep_bits(0x8000_0000_0000_0001), 0x8000_0000_0000_0001);
    assert_eq!(keep_bits(52.09f64.to_bits()), 52.09f64.to_bits());
    assert_eq!(keep_bits((-52.09f64).to_bits()), (-52.09f64).to_bits());
    assert_eq!(keep_bits(u64::MAX), u64::MAX);
}

#[test]
fn location_that_is_no_number() {
    let numbers = [
        0.0f64,
        -0.0,
        90.0,
        -180.0,
        f64::MAX,
        f64::MIN_POSITIVE,
        f64::INFINITY,
        f64::NEG_INFINITY,
        5e-324,
    ];
    for number in numbers {
        assert!(Location::from_bits(number.to_bits(), 0).check_numeric());
        assert!(Location::from_bits(0, number.to_bits()).check_numeric());
    }
    let patterns = [
        f64::NAN.to_bits(),
        0x7ff0_0000_0000_0001,
        0xfff8_0000_0000_0000,
        0xffff_ffff_ffff_ffff,
    ];
    for pattern in patterns {
        assert!(f64::from_bits(pattern).is_nan());
        assert!(!Location::from_bits(pattern, 0).check_numeric());
        assert!(!Location::from_bits(0, pattern).check_numeric());
    }
}

#[test]
fn statements_hold_no_values() {
    let action = Action::InsertUser {
        path: String::from("data/db/users/users.db"),
        uuid: String::from(ALICE),
        device_name: String::from("Robert'); DROP TABLE users; --"),
        created_at: 12,
    };
    let statement = action.statement().unwrap();
    assert_eq!(
        statement,
        "INSERT INTO users (uuid, device_name, created_at, last_location) VALUES (?, ?, ?, 0);"
    );
    assert!(!statement.contains("Robert"));
    assert!(!statement.contains(ALICE));
}
