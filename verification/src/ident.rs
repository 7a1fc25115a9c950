//! User identifiers: 128-bit random values in their hyphenated, lower-case
//! hexadecimal rendering.

use vstd::prelude::*;

verus! {

/// Number of characters of an identifier.
pub const ID_LEN: usize = 36;

/// A lower-case hexadecimal digit.
pub open spec fn is_lower_hex(c: char) -> bool {
    ('0' <= c && c <= '9') || ('a' <= c && c <= 'f')
}

/// The positions of an identifier that hold a hyphen.
pub open spec fn is_hyphen_position(i: int) -> bool {
    i == 8 || i == 13 || i == 18 || i == 23
}

/// Whether `c` may stand at position `i` of an identifier.
pub open spec fn fits_position(i: int, c: char) -> bool {
    if is_hyphen_position(i) {
        c == '-'
    } else {
        is_lower_hex(c)
    }
}

/// The shape of every identifier this library hands out: 36 characters,
/// hyphens after the groups of 8, 4, 4 and 4 digits, lower-case hexadecimal
/// digits everywhere else.
pub open spec fn is_user_id(s: Seq<char>) -> bool {
    &&& s.len() == ID_LEN
    &&& forall|i: int| 0 <= i < s.len() ==> fits_position(i, #[trigger] s[i])
}

/// The marks of a randomly drawn identifier: version digit `4` and a variant
/// digit whose two top bits are `10`.
pub open spec fn has_random_marks(s: Seq<char>) -> bool {
    &&& s.len() == ID_LEN
    &&& s[14] == '4'
    &&& (s[19] == '8' || s[19] == '9' || s[19] == 'a' || s[19] == 'b')
}

/// A character that may stand in the name of a directory: any but the two
/// separators, the dot and NUL.
pub open spec fn is_name_char(c: char) -> bool {
    c != '/' && c != '\\' && c != '.' && c != '\0'
}

/// Whether `s` can name the directory of a user under the root: it is not
/// empty and holds no separator, no dot and no NUL, so that every path made
/// from it lies in the place meant for it. Nothing else is asked of an
/// identifier that names a store.
pub open spec fn is_dir_name(s: Seq<char>) -> bool {
    &&& s.len() > 0
    &&& forall|i: int| 0 <= i < s.len() ==> is_name_char(#[trigger] s[i])
}

/// Every identifier that this library hands out can name a directory.
pub proof fn lemma_user_id_is_dir_name(s: Seq<char>)
    requires
        is_user_id(s),
    ensures
        is_dir_name(s),
{
    assert forall|i: int| 0 <= i < s.len() implies is_name_char(#[trigger] s[i]) by {
        lemma_user_id_is_plain(s, i);
    }
}

/// An identifier holds no character that a path or a query could read as
/// structure: no separator, no dot, no quote, no blank.
pub proof fn lemma_user_id_is_plain(s: Seq<char>, i: int)
    requires
        is_user_id(s),
        0 <= i < s.len(),
    ensures
        s[i] != '/',
        s[i] != '\\',
        s[i] != '.',
        s[i] != '\'',
        s[i] != '"',
        s[i] != ' ',
        s[i] != '\0',
{
    assert(fits_position(i, s[i]));
}

/// Draws a fresh identifier.
///
/// Trusted: calls `uuid::Uuid::new_v4` and renders the value with its
/// `Display` impl. The contract claims only what holds of every draw: the
/// rendering is the hyphenated lower-case form, and the version and variant
/// digits are those of a random identifier. Nothing is claimed about which
/// value comes out, nor that two draws differ. The draw panics on a system
/// that gives no random bytes.
#[verifier::external_body]
pub(crate) fn draw_user_id() -> (id: String)
    ensures
        is_user_id(id@),
        has_random_marks(id@),
{
    uuid::Uuid::new_v4().to_string()
}

/// Tells whether `name` can name the directory of a user under the root.
pub fn check_dir_name(name: &str) -> (b: bool)
    ensures
        b == is_dir_name(name@),
{
    broadcast use vstd::string::group_string_axioms;

    let mut empty = true;
    let mut plain = true;
    for c in it: name.chars()
        invariant
            it.seq() == name@,
            empty == (it.index() == 0),
            plain == forall|i: int| 0 <= i < it.index() ==> is_name_char(#[trigger] name@[i]),
    {
        empty = false;
        if c == '/' || c == '\\' || c == '.' || c == '\0' {
            plain = false;
        }
    }
    !empty && plain
}

/// Tells whether `c` is a lower-case hexadecimal digit.
pub fn lower_hex(c: char) -> (b: bool)
    ensures
        b == is_lower_hex(c),
{
    ('0' <= c && c <= '9') || ('a' <= c && c <= 'f')
}

/// Tells whether `id` has the shape of an identifier of this library.
pub fn check_user_id(id: &str) -> (b: bool)
    ensures
        b == is_user_id(id@),
{
    let n: usize = id.unicode_len();
    if n != ID_LEN {
        return false;
    }
    let mut i: usize = 0;
    while i < n
        invariant
            n == ID_LEN,
            n == id@.len(),
            0 <= i <= n,
            forall|j: int| 0 <= j < i ==> fits_position(j, #[trigger] id@[j]),
        decreases n - i,
    {
        let c: char = id.get_char(i);
        let hyphen: bool = i == 8 || i == 13 || i == 18 || i == 23;
        let fits: bool = if hyphen {
            c == '-'
        } else {
            lower_hex(c)
        };
        if !fits {
            assert(!fits_position(i as int, id@[i as int]));
            return false;
        }
        i = i + 1;
    }
    true
}

} // verus!
