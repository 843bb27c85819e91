//! A small paste-sharing service: accounts, bearer tokens, and stored
//! snippets reachable through short random links.

pub mod db;
pub mod model;
pub mod text;
pub mod jwt;
pub mod user;
pub mod copied_data;
pub mod auth;
pub mod graphql;

use vstd::prelude::*;

verus! {

/// The plain-text greeting of the service's test route.
pub fn test() -> (res: String)
    ensures
        res@ == "Hello world"@,
{
    String::from_str("Hello world")
}

} // verus!
