//! The decisions behind the three requests about users: register a device,
//! list the users, show one user.
//!
//! Each function takes what the server has in hand, the body of a request
//! or the medium's answer, and gives back plain values: the procedure to
//! drive, or the status and body to send.

use vstd::prelude::*;
use crate::clock::utc_rendering;
use crate::clock::utc_text;
use crate::error::Invalid;
use crate::error::message_text;
use crate::error::Missing;
use crate::error::StorageError;
use crate::filesystem::database::creation;
use crate::filesystem::database::fetch_users;
use crate::filesystem::database::fetched;
use crate::filesystem::database::initialize_new_user;
use crate::filesystem::medium::Reply;
use crate::filesystem::medium::ReplyView;
use crate::filesystem::medium::text_views;
use crate::filesystem::procedure::Procedure;
use crate::filesystem::procedure::Receipt;
use crate::filesystem::procedure::ReceiptView;
use crate::ident::has_random_marks;
use crate::ident::is_user_id;
use crate::ident::lemma_user_id_is_dir_name;
use crate::layout::Layout;
pub use crate::user::User;
pub use crate::user::UserRequest;
use crate::user::UserView;
use crate::user::user_found;

verus! {

/// What the server sends back: a status code and a body.
#[derive(Clone, Debug, PartialEq, Eq)]
pub struct HttpReply {
    pub status: u16,
    pub body: String,
}

/// A response, as a value of the model.
pub struct HttpReplyView {
    pub status: u16,
    pub body: Seq<char>,
}

impl View for HttpReply {
    type V = HttpReplyView;

    open spec fn view(&self) -> HttpReplyView {
        HttpReplyView { status: self.status, body: self.body@ }
    }
}

/// A quotation mark, single or double.
pub open spec fn is_quote(c: char) -> bool {
    c == '"' || c == '\''
}

/// Whether `label` holds a quotation mark.
pub open spec fn has_quote(label: Seq<char>) -> bool {
    exists|i: int| 0 <= i < label.len() && is_quote(#[trigger] label[i])
}

/// Tells whether `label` holds a quotation mark.
pub fn contains_quote(label: &str) -> (found: bool)
    ensures
        found == has_quote(label@),
{
    broadcast use vstd::string::group_string_axioms;

    let mut found = false;
    for c in it: label.chars()
        invariant
            it.seq() == label@,
            found == exists|i: int| 0 <= i < it.index() && is_quote(#[trigger] label@[i]),
    {
        if c == '"' || c == '\'' {
            found = true;
        }
    }
    found
}

/// The status and body for a request that failed with `fault`.
pub open spec fn failure_reply(fault: StorageError) -> HttpReplyView {
    match fault {
        StorageError::InvalidInput(_) => HttpReplyView { status: 400, body: message_text(fault) },
        StorageError::Conflict => HttpReplyView { status: 409, body: message_text(fault) },
        StorageError::Busy => HttpReplyView { status: 503, body: message_text(fault) },
        StorageError::NotFound(Missing::User) => HttpReplyView {
            status: 500,
            body: "User not found on the server."@,
        },
        StorageError::NotFound(Missing::Registry) => HttpReplyView {
            status: 500,
            body: "There are no users on this server yet!"@,
        },
        _ => HttpReplyView { status: 500, body: message_text(fault) },
    }
}

/// The response to a request that failed with `fault`.
pub fn failure_response(fault: StorageError) -> (reply: HttpReply)
    ensures
        reply@ == failure_reply(fault),
{
    match fault {
        StorageError::InvalidInput(_) => HttpReply { status: 400, body: fault.message() },
        StorageError::Conflict => HttpReply { status: 409, body: fault.message() },
        StorageError::Busy => HttpReply { status: 503, body: fault.message() },
        StorageError::NotFound(Missing::User) => HttpReply {
            status: 500,
            body: String::from_str("User not found on the server."),
        },
        StorageError::NotFound(Missing::Registry) => HttpReply {
            status: 500,
            body: String::from_str("There are no users on this server yet!"),
        },
        _ => HttpReply { status: 500, body: fault.message() },
    }
}

/// Begins the registration of a device: draws the user and lays out the
/// procedure that creates it on the medium. A label that holds a quotation
/// mark is turned away with `InvalidInput`, and only such a label. Where the
/// clock gives no time of registration, nothing is begun and the fault is
/// `StorageFault`.
pub fn create_user(layout: &Layout, req_body: UserRequest) -> (begun: Result<
    (User, Procedure),
    StorageError,
>)
    ensures
        match begun {
            Ok((user, procedure)) => {
                &&& !has_quote(req_body.device_id@)
                &&& user@.device_name == req_body.device_id@
                &&& user@.created_at >= 0
                &&& user@.last_location is None
                &&& is_user_id(user@.uuid)
                &&& has_random_marks(user@.uuid)
                &&& procedure@ == creation(layout@, user@)
            },
            Err(fault) => if has_quote(req_body.device_id@) {
                fault == StorageError::InvalidInput(Invalid::Label)
            } else {
                fault == StorageError::StorageFault
            },
        },
{
    if contains_quote(req_body.device_id.as_str()) {
        return Err(StorageError::InvalidInput(Invalid::Label));
    }
    match User::new(req_body.device_id) {
        Err(fault) => Err(fault),
        Ok(new_user) => {
            proof {
                lemma_user_id_is_dir_name(new_user@.uuid);
            }
            match initialize_new_user(layout, &new_user) {
                Ok(procedure) => Ok((new_user, procedure)),
                Err(fault) => Err(fault),
            }
        },
    }
}

/// The status and body after a registration ended with `outcome`.
pub open spec fn created_reply(outcome: Result<ReceiptView, StorageError>) -> HttpReplyView {
    match outcome {
        Ok(receipt) => HttpReplyView { status: 201, body: receipt.uuid },
        Err(fault) => failure_reply(fault),
    }
}

/// The response after a registration has ended: 201 with the identifier of
/// the new user, or the response for the fault.
pub fn user_created(outcome: Result<Receipt, StorageError>) -> (reply: HttpReply)
    ensures
        reply@ == created_reply(
            match outcome {
                Ok(receipt) => Ok(receipt@),
                Err(fault) => Err(fault),
            },
        ),
{
    match outcome {
        Ok(receipt) => HttpReply { status: 201, body: receipt.uuid },
        Err(fault) => failure_response(fault),
    }
}

/// `text` between double quotation marks.
pub open spec fn quoted(text: Seq<char>) -> Seq<char> {
    "\""@ + text + "\""@
}

/// The members of `items`, each between quotation marks, with commas
/// between them.
pub open spec fn joined(items: Seq<Seq<char>>) -> Seq<char>
    decreases items.len(),
{
    if items.len() == 0 {
        Seq::empty()
    } else if items.len() == 1 {
        quoted(items[0])
    } else {
        joined(items.drop_last()) + ","@ + quoted(items.last())
    }
}

/// The JSON array of the strings `items`. The strings are put in as they
/// are: identifiers hold nothing that needs escaping.
pub open spec fn json_array(items: Seq<Seq<char>>) -> Seq<char> {
    "["@ + joined(items) + "]"@
}

/// Renders `items` as a JSON array of strings.
pub fn render_json_array(items: &Vec<String>) -> (text: String)
    ensures
        text@ == json_array(text_views(items@)),
{
    let ghost views = text_views(items@);
    let mut text = String::from_str("[");
    let mut i: usize = 0;
    while i < items.len()
        invariant
            0 <= i <= items.len(),
            views == text_views(items@),
            text@ == "["@ + joined(views.take(i as int)),
        decreases items.len() - i,
    {
        let ghost before = views.take(i as int);
        let ghost after = views.take(i + 1);
        proof {
            assert(after.drop_last() =~= before);
            assert(after.last() == items@[i as int]@);
        }
        if i > 0 {
            text.append(",");
        }
        text.append("\"");
        text.append(items[i].as_str());
        text.append("\"");
        proof {
            if i == 0 {
                assert(before =~= Seq::<Seq<char>>::empty());
                assert(text@ =~= "["@ + joined(after));
            } else {
                assert(text@ =~= "["@ + joined(after));
            }
        }
        i = i + 1;
    }
    proof {
        assert(views.take(items.len() as int) =~= views);
    }
    text.append("]");
    text
}

/// The status and body for the list of users when the medium answered
/// `listed`: the array of identifiers; the empty array where nobody has
/// registered yet; a server error for every other fault.
pub open spec fn users_reply(listed: ReplyView) -> HttpReplyView {
    match fetched(listed) {
        Ok(uuids) => HttpReplyView { status: 200, body: json_array(uuids) },
        Err(StorageError::NotFound(Missing::Registry)) => HttpReplyView {
            status: 200,
            body: json_array(Seq::empty()),
        },
        Err(_) => HttpReplyView {
            status: 500,
            body: "Could not fetch users. Please try again later."@,
        },
    }
}

/// The response to a request for the list of users, from the answer of the
/// medium to the listing.
pub fn get_users(listed: Reply) -> (reply: HttpReply)
    ensures
        reply@ == users_reply(listed@),
{
    match fetch_users(listed) {
        Ok(uuids) => HttpReply { status: 200, body: render_json_array(&uuids) },
        Err(StorageError::NotFound(Missing::Registry)) => {
            let nobody: Vec<String> = Vec::new();
            assert(text_views(nobody@) =~= Seq::<Seq<char>>::empty());
            HttpReply { status: 200, body: render_json_array(&nobody) }
        },
        Err(_) => HttpReply {
            status: 500,
            body: String::from_str("Could not fetch users. Please try again later."),
        },
    }
}

/// The lines that describe `user`, with `created` as the rendering of the
/// time of registration.
pub open spec fn user_text(user: UserView, created: Seq<char>) -> Seq<char> {
    "UUID: "@ + user.uuid + "\nDEVICE NAME: "@ + user.device_name + "\nCREATED AT: "@ + created
}

/// The status and body that show `user`, where `created` is the calendar
/// rendering of the time of registration: a time that the calendar does not
/// cover is a fault of what the medium holds.
pub open spec fn shown_reply(user: UserView, created: Option<Seq<char>>) -> HttpReplyView {
    match created {
        Some(text) => HttpReplyView { status: 200, body: user_text(user, text) },
        None => failure_reply(StorageError::StorageFault),
    }
}

/// The response that shows `user`, given the calendar rendering of the
/// time of registration.
pub fn user_shown(user: &User, created: Option<String>) -> (reply: HttpReply)
    ensures
        reply@ == shown_reply(
            user@,
            match created {
                Some(text) => Some(text@),
                None => None,
            },
        ),
{
    match created {
        Some(created_text) => {
            let mut body = String::from_str("UUID: ");
            body.append(user.uuid.as_str());
            body.append("\nDEVICE NAME: ");
            body.append(user.device_name.as_str());
            body.append("\nCREATED AT: ");
            body.append(created_text.as_str());
            HttpReply { status: 200, body }
        },
        None => failure_response(StorageError::StorageFault),
    }
}

/// The status and body for a request to show `requested_uuid` when the
/// medium answered `searched`.
pub open spec fn user_reply(requested_uuid: Seq<char>, searched: ReplyView) -> HttpReplyView {
    match user_found(requested_uuid, searched) {
        Ok(user) => shown_reply(user, utc_text(user.created_at)),
        Err(fault) => failure_reply(fault),
    }
}

/// The response to a request to show the user `requested_uuid`, from the
/// answer of the medium to the lookup.
pub fn get_user(requested_uuid: String, searched: Reply) -> (reply: HttpReply)
    ensures
        reply@ == user_reply(requested_uuid@, searched@),
{
    match User::from_uuid(requested_uuid, searched) {
        Ok(user) => {
            let created = utc_rendering(user.created_at);
            user_shown(&user, created)
        },
        Err(fault) => failure_response(fault),
    }
}

} // verus!
