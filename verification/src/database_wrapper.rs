//! Where the media library's database is and whether it must be created.
use vstd::prelude::*;
use crate::text::{join_path, join_path_spec, push_str};

verus! {

/// The database's location, as a connection URL, and whether its file
/// existed when the wrapper was made.
pub struct DatabaseWrapper {
    db_url: String,
    db_exists: bool,
}

/// The database file below a directory: `<dir>/nanowave.db`, with the
/// trailing slashes of `dir` removed first.
pub open spec fn database_path_spec(base_dir: Seq<char>) -> Seq<char> {
    join_path_spec(base_dir, "nanowave.db"@)
}

/// The SQLite URL of a database file, opened for reading and writing and
/// created if missing.
pub open spec fn database_url_spec(db_path: Seq<char>) -> Seq<char> {
    "sqlite://"@ + db_path + "?mode=rwc"@
}

/// The database file below a directory.
pub fn database_path(base_dir: &str) -> (r: String)
    ensures
        r@ == database_path_spec(base_dir@),
{
    join_path(base_dir, "nanowave.db")
}

impl DatabaseWrapper {
    /// The connection URL.
    pub closed spec fn url(&self) -> Seq<char> {
        self.db_url@
    }

    /// Whether the database file existed.
    pub closed spec fn file_existed(&self) -> bool {
        self.db_exists
    }

    /// The wrapper for the database below `base_dir`, whose file exists or
    /// not (`db_exists`, as checked at `database_path(base_dir)`).
    pub fn new(base_dir: String, db_exists: bool) -> (r: Self)
        ensures
            r.url() == database_url_spec(database_path_spec(base_dir@)),
            r.file_existed() == db_exists,
    {
        let db_path = database_path(base_dir.as_str());
        let mut db_url = String::from_str("sqlite://");
        push_str(&mut db_url, db_path.as_str());
        push_str(&mut db_url, "?mode=rwc");
        Self { db_url, db_exists }
    }

    /// The connection URL.
    pub fn db_url(&self) -> (r: &String)
        ensures
            r@ == self.url(),
    {
        &self.db_url
    }

    /// Whether the tables must be created before the migrations run: when
    /// the database file did not exist.
    pub fn needs_schema(&self) -> (r: bool)
        ensures
            r == !self.file_existed(),
    {
        !self.db_exists
    }
}

} // verus!
