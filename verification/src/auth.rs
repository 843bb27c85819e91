//! The answers to login and sign-up requests.
use crate::jwt::{
    chrono_max_timestamp, clock_now_secs, create_jwt_at, expiration_after, hs256_token, token_expiration, JWT_SECRET,
    TOKEN_LIFETIME_MINUTES,
};
use crate::model::ApiError;
use crate::text::{decimal, decimal_i32};
use vstd::prelude::*;

verus! {

/// The status of an answer.
#[derive(Debug, Clone, Copy, PartialEq, Eq, Structural)]
pub enum ReplyStatus {
    /// 200.
    Success,
    /// 403.
    Forbidden,
}

/// The JSON body of an answer: `{"token": ..}` or `{"Error": ..}`.
#[derive(Debug, Clone, PartialEq, Eq)]
pub enum ReplyBody {
    Token(String),
    Error(String),
}

/// An answer to a login or sign-up request.
#[derive(Debug, Clone, PartialEq, Eq)]
pub struct HttpReply {
    pub status: ReplyStatus,
    pub body: ReplyBody,
}

/// The text of the error answered to a refused login or sign-up.
pub open spec fn wrong_credentials_text() -> Seq<char> {
    "Wrong Credentials"@
}

/// Whether `r` is the answer that refuses a login or sign-up.
pub open spec fn is_refusal(r: HttpReply) -> bool {
    r.status == ReplyStatus::Forbidden && (r.body matches ReplyBody::Error(m) && m@
        == wrong_credentials_text())
}

/// Whether `r` hands out `token`.
pub open spec fn is_token_reply(r: HttpReply, token: Seq<char>) -> bool {
    r.status == ReplyStatus::Success && (r.body matches ReplyBody::Token(t) && t@ == token)
}

/// The answer that refuses a login or sign-up.
pub fn refusal() -> (r: HttpReply)
    ensures
        is_refusal(r),
{
    HttpReply { status: ReplyStatus::Forbidden, body: ReplyBody::Error(String::from_str("Wrong Credentials")) }
}

/// The answer once the account is known: a token for the account's id,
/// written in decimal, that expires at `expiration` (`None`: an instant that
/// cannot be represented); a refusal when the account is not known.
pub fn issue_token_reply(account: Result<i32, ApiError>, expiration: Option<i64>) -> (r: HttpReply)
    ensures
        account is Err ==> is_refusal(r),
        account matches Ok(id) ==> match expiration {
            Some(e) => is_token_reply(r, hs256_token(decimal(id as int), e as usize, JWT_SECRET@)),
            None => is_refusal(r),
        },
{
    match account {
        Err(_) => refusal(),
        Ok(id) => {
            let uid = decimal_i32(id);
            match create_jwt_at(&uid, expiration) {
                Ok(t) => HttpReply { status: ReplyStatus::Success, body: ReplyBody::Token(t) },
                Err(_) => refusal(),
            }
        },
    }
}

/// What answering for account `id` at the second `now` gives: the token for
/// the id in decimal whose expiry is `TOKEN_LIFETIME_MINUTES` after `now`, or
/// a refusal when that expiry cannot be represented.
pub open spec fn answered_at(r: HttpReply, id: i32, now: i64) -> bool {
    match expiration_after(now) {
        Some(e) => e == now + 60 * TOKEN_LIFETIME_MINUTES && is_token_reply(
            r,
            hs256_token(decimal(id as int), e as usize, JWT_SECRET@),
        ),
        None => is_refusal(r),
    }
}

/// The answer once the account is known, with its token issued at the
/// second `now`: a refusal when the account is not known.
pub fn answer_at(account: Result<i32, ApiError>, now: i64) -> (r: HttpReply)
    ensures
        account is Err ==> is_refusal(r),
        account matches Ok(id) ==> answered_at(r, id, now),
{
    issue_token_reply(account, token_expiration(now))
}

/// The answer to a login, given the outcome of checking its credentials
/// (`check_user`): a token for the account, valid for
/// `TOKEN_LIFETIME_MINUTES` from the present moment, or a refusal.
pub fn login(checked: Result<i32, ApiError>) -> (r: HttpReply)
    ensures
        checked is Err ==> is_refusal(r),
        checked matches Ok(id) ==> exists|now: i64|
            0 <= now <= chrono_max_timestamp() && #[trigger] answered_at(r, id, now),
{
    match checked {
        Err(_) => refusal(),
        Ok(id) => answer_at(Ok(id), clock_now_secs()),
    }
}

/// The answer to a sign-up, given the outcome of storing the account
/// (`InsertUser`): a token for the new account, valid for
/// `TOKEN_LIFETIME_MINUTES` from the present moment, or a refusal.
pub fn sign_up(inserted: Result<i32, ApiError>) -> (r: HttpReply)
    ensures
        inserted is Err ==> is_refusal(r),
        inserted matches Ok(id) ==> exists|now: i64|
            0 <= now <= chrono_max_timestamp() && #[trigger] answered_at(r, id, now),
{
    match inserted {
        Err(_) => refusal(),
        Ok(id) => answer_at(Ok(id), clock_now_secs()),
    }
}

} // verus!
