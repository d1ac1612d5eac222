//! Start-up choices of a node: whose chat it is and where its history lives.

use vstd::prelude::*;
use vstd::string::StringExecFns;

verus! {

/// The user's name: the one given, or `Anonymous` when none is.
pub fn username_or_default(given: Option<String>) -> (name: String)
    ensures
        match given {
            Some(g) => name@ == g@,
            None => name@ == "Anonymous"@,
        },
{
    match given {
        Some(g) => g,
        None => "Anonymous".to_owned(),
    }
}

/// The SQLite location of a user's history: `sqlite://<name>_murmur.db`,
/// created when missing (`mode=rwc`).
pub fn database_url(username: &str) -> (url: String)
    ensures
        url@ == "sqlite://"@ + username@ + "_murmur.db?mode=rwc"@,
{
    let mut url = "sqlite://".to_owned();
    url.append(username);
    url.append("_murmur.db?mode=rwc");
    url
}

} // verus!
