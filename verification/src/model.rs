//! The values that requests, tokens and stored rows carry.
use vstd::prelude::*;

verus! {

/// The credentials of a login request.
#[derive(Debug, Clone, PartialEq, Eq)]
pub struct UserCreds {
    pub email: String,
    pub password: String,
}

/// The details of a sign-up request.
#[derive(Debug, Clone, PartialEq, Eq)]
pub struct NewCreds {
    pub name: String,
    pub email: String,
    pub password: String,
}

/// The claims that a bearer token carries: the user it was issued to and
/// the second (since the Unix epoch) after which it is no longer accepted.
#[derive(Debug, Clone, PartialEq, Eq)]
pub struct Claims {
    pub sub: String,
    pub exp: usize,
}

/// A token handed to a client.
#[derive(Debug, Clone, PartialEq, Eq)]
pub struct TokenInfo {
    pub token: String,
}

/// The link under which a stored snippet can be fetched.
#[derive(Debug, Clone, PartialEq, Eq)]
pub struct UrlInfo {
    pub url: String,
}

/// One snippet of a user's list: its title and its link.
#[derive(Debug, Clone, PartialEq, Eq)]
pub struct UserData {
    pub title: String,
    pub url: String,
}

/// The profile of a user.
#[derive(Debug, Clone, PartialEq, Eq)]
pub struct UserInfo {
    pub name: String,
    pub email: String,
}

/// A stored snippet as shown to a reader, with whether the reader owns it.
#[derive(Debug, Clone, PartialEq, Eq)]
pub struct TitleData {
    pub title: String,
    pub data: String,
    pub edit_action: bool,
}

/// An error reported to a client, with the text that it is shown.
#[derive(Debug, Clone, PartialEq, Eq)]
pub struct ApiError {
    pub message: String,
}

/// A failed database request: whether it failed because a single row was
/// asked for and none was found, and the database's own description.
#[derive(Debug, Clone, PartialEq, Eq)]
pub struct DbError {
    pub row_not_found: bool,
    pub message: String,
}

/// An error with the given text.
pub fn api_error(message: &str) -> (e: ApiError)
    ensures
        e.message@ == message@,
{
    ApiError { message: String::from_str(message) }
}

/// The error that passes a database failure on with the database's own
/// description.
pub fn api_error_from_db(e: &DbError) -> (res: ApiError)
    ensures
        res.message@ == e.message@,
{
    ApiError { message: e.message.clone() }
}

/// The text of the error answered when a database request fails.
pub open spec fn internal_error_text() -> Seq<char> {
    "Internal Server Error"@
}

/// The error answered when a database request fails.
pub fn internal_error() -> (e: ApiError)
    ensures
        e.message@ == internal_error_text(),
{
    api_error("Internal Server Error")
}

} // verus!
