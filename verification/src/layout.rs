//! Where things live on the medium: the users database at a fixed place
//! under the root, and for each user a location database and a track file
//! at places derived from the user's identifier.

use vstd::prelude::*;
use crate::error::Invalid;
use crate::error::StorageError;
use crate::ident::check_dir_name;
use crate::ident::is_dir_name;

verus! {

/// Path of the users database under `root`.
pub open spec fn users_db_path(root: Seq<char>) -> Seq<char> {
    root + "/db/users/users.db"@
}

/// Directory of a user's location database.
pub open spec fn user_db_dir_path(root: Seq<char>, uuid: Seq<char>) -> Seq<char> {
    root + "/db/users/"@ + uuid
}

/// Directory of a user's track file.
pub open spec fn user_gpx_dir_path(root: Seq<char>, uuid: Seq<char>) -> Seq<char> {
    root + "/gpx/users/"@ + uuid
}

/// Path of a user's location database.
pub open spec fn location_db_path(root: Seq<char>, uuid: Seq<char>) -> Seq<char> {
    root + "/db/users/"@ + uuid + "/location_data.db"@
}

/// Path of a user's track file.
pub open spec fn location_gpx_path(root: Seq<char>, uuid: Seq<char>) -> Seq<char> {
    root + "/gpx/users/"@ + uuid + "/location_data.gpx"@
}

/// What a function that makes a path for `uuid` hands back when the path
/// for a name of a directory is `expected`: that path where `uuid` can name
/// a directory, and `InvalidInput(Identifier)` where it cannot.
pub open spec fn path_is(path: Result<String, StorageError>, uuid: Seq<char>, expected: Seq<char>) -> bool {
    match path {
        Ok(made) => is_dir_name(uuid) && made@ == expected,
        Err(fault) => !is_dir_name(uuid) && fault == StorageError::InvalidInput(
            Invalid::Identifier,
        ),
    }
}

/// The root directory under which everything is kept. It is fixed when the
/// value is made and handed to every operation; nothing reads a global.
#[derive(Clone, Debug)]
pub struct Layout {
    root: String,
}

impl View for Layout {
    type V = Seq<char>;

    closed spec fn view(&self) -> Seq<char> {
        self.root@
    }
}

impl Layout {
    /// A layout under `root`.
    pub fn new(root: String) -> (layout: Layout)
        ensures
            layout@ == root@,
    {
        Layout { root }
    }

    /// The layout under the directory `data`.
    pub fn standard() -> (layout: Layout)
        ensures
            layout@ == "data"@,
    {
        Layout { root: String::from_str("data") }
    }

    /// The root directory.
    pub fn root(&self) -> (root: &str)
        ensures
            root@ == self@,
    {
        self.root.as_str()
    }

    /// Path of the users database.
    pub fn users_db(&self) -> (path: String)
        ensures
            path@ == users_db_path(self@),
    {
        let mut path = self.root.clone();
        path.append("/db/users/users.db");
        path
    }

    /// Directory that holds the location database of `uuid`. An identifier
    /// that cannot name a directory has none.
    pub fn user_db_dir(&self, uuid: &str) -> (path: Result<String, StorageError>)
        ensures
            path_is(path, uuid@, user_db_dir_path(self@, uuid@)),
    {
        if !check_dir_name(uuid) {
            return Err(StorageError::InvalidInput(Invalid::Identifier));
        }
        let mut path = self.root.clone();
        path.append("/db/users/");
        path.append(uuid);
        Ok(path)
    }

    /// Directory that holds the track file of `uuid`. An identifier that
    /// cannot name a directory has none.
    pub fn user_gpx_dir(&self, uuid: &str) -> (path: Result<String, StorageError>)
        ensures
            path_is(path, uuid@, user_gpx_dir_path(self@, uuid@)),
    {
        if !check_dir_name(uuid) {
            return Err(StorageError::InvalidInput(Invalid::Identifier));
        }
        let mut path = self.root.clone();
        path.append("/gpx/users/");
        path.append(uuid);
        Ok(path)
    }

    /// Path of the location database of `uuid`. An identifier that cannot
    /// name a directory has none.
    pub fn location_db(&self, uuid: &str) -> (path: Result<String, StorageError>)
        ensures
            path_is(path, uuid@, location_db_path(self@, uuid@)),
    {
        match self.user_db_dir(uuid) {
            Ok(mut path) => {
                path.append("/location_data.db");
                Ok(path)
            },
            Err(fault) => Err(fault),
        }
    }

    /// Path of the track file of `uuid`. An identifier that cannot name a
    /// directory has none.
    pub fn location_gpx(&self, uuid: &str) -> (path: Result<String, StorageError>)
        ensures
            path_is(path, uuid@, location_gpx_path(self@, uuid@)),
    {
        match self.user_gpx_dir(uuid) {
            Ok(mut path) => {
                path.append("/location_data.gpx");
                Ok(path)
            },
            Err(fault) => Err(fault),
        }
    }
}

/// If two sequences agree once the same prefix and suffix are put around
/// them, they are the same sequence.
pub proof fn lemma_framed_equal(prefix: Seq<char>, a: Seq<char>, b: Seq<char>, suffix: Seq<char>)
    requires
        prefix + a + suffix == prefix + b + suffix,
    ensures
        a == b,
{
    let left = prefix + a + suffix;
    let right = prefix + b + suffix;
    assert(left.len() == prefix.len() + a.len() + suffix.len());
    assert(right.len() == prefix.len() + b.len() + suffix.len());
    assert(a.len() == b.len());
    assert forall|i: int| 0 <= i < a.len() implies a[i] == b[i] by {
        assert(left[prefix.len() + i] == a[i]);
        assert(right[prefix.len() + i] == b[i]);
    }
    assert(a =~= b);
}

/// Two users never share a location database: the path determines the
/// identifier.
pub proof fn lemma_location_db_injective(root: Seq<char>, a: Seq<char>, b: Seq<char>)
    requires
        location_db_path(root, a) == location_db_path(root, b),
    ensures
        a == b,
{
    lemma_framed_equal(root + "/db/users/"@, a, b, "/location_data.db"@);
}

/// Two users never share a track file.
pub proof fn lemma_location_gpx_injective(root: Seq<char>, a: Seq<char>, b: Seq<char>)
    requires
        location_gpx_path(root, a) == location_gpx_path(root, b),
    ensures
        a == b,
{
    lemma_framed_equal(root + "/gpx/users/"@, a, b, "/location_data.gpx"@);
}

/// The users database, the location databases and the track files are
/// three families of paths with no member in common.
pub proof fn lemma_families_disjoint(root: Seq<char>, a: Seq<char>, b: Seq<char>)
    ensures
        location_db_path(root, a) != users_db_path(root),
        location_gpx_path(root, a) != users_db_path(root),
        location_db_path(root, a) != location_gpx_path(root, b),
{
    reveal_strlit("/db/users/users.db");
    reveal_strlit("/db/users/");
    reveal_strlit("/gpx/users/");
    reveal_strlit("/location_data.db");
    reveal_strlit("/location_data.gpx");
    let users = users_db_path(root);
    let db = location_db_path(root, a);
    let gpx = location_gpx_path(root, b);
    let gpx_a = location_gpx_path(root, a);
    // The users database ends in "users.db", a location database in
    // "_data.db", a track file in "x".
    assert(users[users.len() - 4] == 's');
    assert(db[db.len() - 4] == 'a');
    assert(db[db.len() - 1] == 'b');
    assert(users[users.len() - 1] == 'b');
    assert(gpx[gpx.len() - 1] == 'x');
    assert(gpx_a[gpx_a.len() - 1] == 'x');
}

} // verus!
