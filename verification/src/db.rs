//! Where the database lives.

use vstd::prelude::*;

verus! {

/// The name of the database file inside the application's data directory.
pub open spec fn database_file_text() -> Seq<char> {
    "pos.db"@
}

/// The scheme that precedes the path in the address of the database.
pub open spec fn database_scheme_text() -> Seq<char> {
    "sqlite://"@
}

/// The name of the database file inside the application's data directory.
pub fn database_file() -> (name: String)
    ensures
        name@ == database_file_text(),
{
    "pos.db".to_string()
}

/// The address under which the host connects to the database file at
/// `path`.
pub fn database_url(path: &str) -> (url: String)
    ensures
        url@ == database_scheme_text() + path@,
{
    let mut url = "sqlite://".to_string();
    url.append(path);
    url
}

} // verus!
