//! Helpers for the bundled demonstration program, which runs the default
//! extraction over a sample source file and connects to a sample database.

use vstd::prelude::*;

verus! {

/// The connection string the bundled demonstration program uses.  The
/// connection itself is established outside the library; this only fixes
/// the endpoint the demonstration points at.
pub fn getdbconn() -> (url: String)
    ensures
        url@ == "Database-URL"@,
{
    String::from_str("Database-URL")
}

} // verus!
