//! Bearer tokens: issuing them, finding them in a request, and the
//! decisions taken on what checking them gives.
use crate::db::{is_query, query1, DbQuery, Statement};
use crate::model::{api_error, internal_error, internal_error_text, ApiError, Claims, DbError};
use crate::text::{
    has_prefix, header_chars, header_text, is_visible_ascii, lemma_strip_leading_done, starts_with,
    strip_leading,
    strip_leading_copies, string_from_chars,
};
use vstd::prelude::*;

verus! {

#[verifier::external_type_specification]
#[verifier::external_body]
pub struct ExJwtError(jsonwebtoken::errors::Error);

/// The key that signs and checks bearer tokens: the bytes of "pastebin".
pub const JWT_SECRET: [u8; 8] = [112, 97, 115, 116, 101, 98, 105, 110];

/// How long, in minutes, a token is accepted after it is issued.
pub const TOKEN_LIFETIME_MINUTES: i64 = 15;

/// The compact JSON Web Token, signed with HMAC-SHA256 under `secret`, that
/// `jsonwebtoken::encode` makes of the claims `{"sub": sub, "exp": exp}`.
pub uninterp spec fn hs256_token(sub: Seq<char>, exp: usize, secret: Seq<u8>) -> Seq<char>;

/// What `jsonwebtoken::decode` under `Validation::new(HS256)` and the key
/// `secret` reads from `token` when the clock is not consulted: the token
/// must be three dot-separated parts whose header names HS256, whose
/// signature is the HMAC-SHA256 of the first two parts under `secret`, and
/// whose claims hold a numeric `exp` and a text `sub`; the result is the
/// subject and the expiry second.
pub uninterp spec fn hs256_claims(token: Seq<char>, secret: Seq<u8>) -> Option<(Seq<char>, usize)>;

/// Signs `claims` with `secret` into a token by `jsonwebtoken::encode`, under
/// an HS256 header.
///
/// Trusted: `encode` returns an error only when the key's family differs
/// from the header's algorithm (a secret key and HS256 are both HMAC) or when
/// serialising fails (a map of text keys cannot fail); its token is a
/// function of the claims and the secret alone (HMAC is deterministic).
/// What the token's bytes are is left to the name `hs256_token`. Reading
/// the token back with the same secret gives the same claims: `decode`
/// splits off the signature, re-signs the first two parts with the secret and
/// compares (`crypto::verify`), finds HS256 in the header that `encode`
/// wrote, and parses the same JSON object back.
#[verifier::external_body]
fn encode_hs256(claims: &Claims, secret: &[u8]) -> (res: Result<String, jsonwebtoken::errors::Error>)
    ensures
        res is Ok,
        res matches Ok(t) ==> t@ == hs256_token(claims.sub@, claims.exp, secret@),
        res matches Ok(t) ==> hs256_claims(t@, secret@) == Some((claims.sub@, claims.exp)),
{
    let mut body = serde_json::Map::new();
    body.insert(String::from("sub"), serde_json::Value::from(claims.sub.as_str()));
    body.insert(String::from("exp"), serde_json::Value::from(claims.exp));
    let header = jsonwebtoken::Header::new(jsonwebtoken::Algorithm::HS256);
    jsonwebtoken::encode(&header, &body, &jsonwebtoken::EncodingKey::from_secret(secret))
}

/// Checks `token` with `jsonwebtoken::decode` under `Validation::new(HS256)`
/// and the key `secret`, reading its claims as a JSON object, and picks out
/// its text `sub` and its numeric `exp`.
///
/// Trusted: `decode` checks the algorithm, the signature and the claims'
/// shape, which depend on the token and the secret alone (`hs256_claims`),
/// and then compares `exp`, less 60 seconds of leeway, with the clock, which
/// can only turn an accepted token into a refused one. When the token is
/// accepted, what is picked out is what the name reads.
#[verifier::external_body]
fn decode_hs256(token: &String, secret: &[u8]) -> (res: Option<Claims>)
    ensures
        res matches Some(c) ==> hs256_claims(token@, secret@) == Some((c.sub@, c.exp)),
        hs256_claims(token@, secret@) is None ==> res is None,
{
    let validation = jsonwebtoken::Validation::new(jsonwebtoken::Algorithm::HS256);
    let key = jsonwebtoken::DecodingKey::from_secret(secret);
    let data = jsonwebtoken::decode::<serde_json::Map<String, serde_json::Value>>(token, &key, &validation).ok()?;
    let sub = data.claims.get("sub")?.as_str()?;
    let exp = usize::try_from(data.claims.get("exp")?.as_u64()?).ok()?;
    Some(Claims { sub: String::from(sub), exp })
}

/// The earliest second that chrono represents: January 1 of the year
/// -262143, 00:00:00 UTC (`NaiveDate::MIN`).
pub open spec fn chrono_min_timestamp() -> int {
    -8334601228800
}

/// The latest whole second that chrono represents: December 31 of the year
/// 262142, 23:59:59 UTC (`NaiveDate::MAX`).
pub open spec fn chrono_max_timestamp() -> int {
    8210266876799
}

/// The present moment as a Unix timestamp in whole seconds, read from the
/// clock by `chrono::Utc::now` and `DateTime::timestamp`.
///
/// Trusted: the clock is read anew at each call, so nothing fixes the value.
/// `Utc::now` panics on a clock set before the Unix epoch and builds the
/// instant with `DateTime::from_timestamp(..).unwrap()`, which panics outside
/// chrono's dates, so a value that is returned lies between the epoch and
/// chrono's last second.
#[verifier::external_body]
pub(crate) fn clock_now_secs() -> (now: i64)
    ensures
        0 <= now <= chrono_max_timestamp(),
{
    chrono::Utc::now().timestamp()
}

/// The Unix timestamp of the instant `minutes` after the second `now`, as
/// chrono computes it with `DateTime::from_timestamp`, `checked_add_signed`
/// and `timestamp`: `now` plus the minutes' seconds, when both instants lie
/// among the dates that chrono represents, and `None` otherwise.
pub open spec fn timestamp_after_minutes(now: i64, minutes: i64) -> Option<i64> {
    let later = now + 60 * minutes;
    if chrono_min_timestamp() <= now <= chrono_max_timestamp() && chrono_min_timestamp() <= later
        <= chrono_max_timestamp() {
        Some(later as i64)
    } else {
        None
    }
}

/// Moves the second `now` ahead by `minutes` with chrono.
///
/// Trusted: `from_timestamp` gives `None` exactly for a second outside
/// chrono's dates; `checked_add_signed` adds the duration exactly and gives
/// `None` exactly when the sum leaves them; `timestamp` reads the second
/// back. `TimeDelta::minutes` panics beyond about 1.5e14 minutes, which
/// `requires` rules out.
#[verifier::external_body]
fn add_minutes(now: i64, minutes: i64) -> (res: Option<i64>)
    requires
        0 <= minutes <= 1_000_000,
    ensures
        res == timestamp_after_minutes(now, minutes),
{
    match chrono::DateTime::from_timestamp(now, 0) {
        Some(start) => match start.checked_add_signed(chrono::TimeDelta::minutes(minutes)) {
            Some(later) => Some(later.timestamp()),
            None => None,
        },
        None => None,
    }
}

/// When a token issued at the second `now` expires: `TOKEN_LIFETIME_MINUTES`
/// later, or `None` when that instant cannot be represented.
pub open spec fn expiration_after(now: i64) -> Option<i64> {
    timestamp_after_minutes(now, TOKEN_LIFETIME_MINUTES)
}

/// The expiration instant of a token issued at the second `now`.
pub fn token_expiration(now: i64) -> (res: Option<i64>)
    ensures
        res == expiration_after(now),
        res matches Some(e) ==> e == now + 60 * TOKEN_LIFETIME_MINUTES,
{
    add_minutes(now, TOKEN_LIFETIME_MINUTES)
}

/// Why a token could not be issued.
#[derive(Debug)]
pub enum TokenError {
    /// The expiration instant lies beyond the dates that can be represented.
    ExpirationOutOfRange,
    /// Signing failed.
    Encoding(jsonwebtoken::errors::Error),
}

/// The claims of a token for `uid` that expires at `expiration`.
/// The instant is stored as `usize`, converted as `as` converts.
pub fn claims_for(uid: &String, expiration: i64) -> (c: Claims)
    ensures
        c.sub@ == uid@,
        c.exp == expiration as usize,
{
    Claims { sub: uid.clone(), exp: #[verifier::truncate] (expiration as usize) }
}

/// The token for `uid` with the given expiration instant: `None` stands for
/// an instant that cannot be represented.
pub fn create_jwt_at(uid: &String, expiration: Option<i64>) -> (res: Result<String, TokenError>)
    ensures
        expiration is None ==> res matches Err(TokenError::ExpirationOutOfRange),
        expiration matches Some(e) ==> res matches Ok(t) && t@ == hs256_token(
            uid@,
            e as usize,
            JWT_SECRET@,
        ),
        res matches Ok(t) ==> (expiration matches Some(e) && hs256_claims(t@, JWT_SECRET@) == Some(
            (uid@, e as usize),
        )),
{
    match expiration {
        None => Err(TokenError::ExpirationOutOfRange),
        Some(e) => {
            let claims = claims_for(uid, e);
            match encode_hs256(&claims, JWT_SECRET.as_slice()) {
                Ok(t) => Ok(t),
                Err(err) => Err(TokenError::Encoding(err)),
            }
        },
    }
}

/// What issuing a token for `uid` at the second `now` gives: the token
/// whose expiry is `TOKEN_LIFETIME_MINUTES` after `now`, or the refusal of an
/// expiry that cannot be represented.
pub open spec fn issued_at(res: Result<String, TokenError>, uid: Seq<char>, now: i64) -> bool {
    match expiration_after(now) {
        Some(e) => e == now + 60 * TOKEN_LIFETIME_MINUTES && (res matches Ok(t) && t@
            == hs256_token(uid, e as usize, JWT_SECRET@)),
        None => res matches Err(TokenError::ExpirationOutOfRange),
    }
}

/// A token for `uid` issued at the second `now`.
pub fn create_jwt_issued_at(uid: &String, now: i64) -> (res: Result<String, TokenError>)
    ensures
        issued_at(res, uid@, now),
{
    create_jwt_at(uid, token_expiration(now))
}

/// A token for `uid` that expires `TOKEN_LIFETIME_MINUTES` after the present
/// moment, read from the clock.
pub fn create_jwt(uid: &String) -> (res: Result<String, TokenError>)
    ensures
        exists|now: i64| 0 <= now <= chrono_max_timestamp() && #[trigger] issued_at(res, uid@, now),
{
    let now = clock_now_secs();
    create_jwt_issued_at(uid, now)
}

/// The scheme word that an `Authorization` header must begin with.
pub open spec fn bearer_scheme() -> Seq<char> {
    seq!['B', 'e', 'a', 'r', 'e', 'r']
}

/// The scheme word and the space that separates it from the token.
pub open spec fn bearer_prefix() -> Seq<char> {
    bearer_scheme().push(' ')
}

/// The bytes of an optional header value.
pub open spec fn opt_bytes(h: Option<&[u8]>) -> Option<Seq<u8>> {
    match h {
        Some(b) => Some(b@),
        None => None,
    }
}

/// The token that a request's `Authorization` header carries: the header
/// must read as text and begin with `Bearer`; every leading copy of
/// `Bearer ` is then removed.
pub open spec fn bearer_token(header: Option<Seq<u8>>) -> Option<Seq<char>> {
    match header {
        None => None,
        Some(bytes) => match header_text(bytes) {
            None => None,
            Some(t) => if starts_with(t, bearer_scheme()) {
                Some(strip_leading(t, bearer_prefix()))
            } else {
                None
            },
        },
    }
}

/// The bearer token of a request, given the value of its `Authorization`
/// header, if it has one.
pub fn extract_jwt(auth_header: Option<&[u8]>) -> (res: Option<String>)
    ensures
        res matches Some(t) ==> bearer_token(opt_bytes(auth_header)) == Some(t@),
        res is None ==> bearer_token(opt_bytes(auth_header)) is None,
        res matches Some(t) ==> !starts_with(t@, bearer_prefix()),
{
    let bytes = match auth_header {
        Some(b) => b,
        None => return None,
    };
    let text = match header_chars(bytes) {
        Some(cs) => cs,
        None => return None,
    };
    let scheme: [char; 6] = ['B', 'e', 'a', 'r', 'e', 'r'];
    let prefix: [char; 7] = ['B', 'e', 'a', 'r', 'e', 'r', ' '];
    assert(scheme@ == bearer_scheme());
    assert(prefix@ == bearer_prefix());
    if has_prefix(text.as_slice(), scheme.as_slice()) {
        let token = strip_leading_copies(text.as_slice(), prefix.as_slice());
        proof {
            lemma_strip_leading_done(text@, prefix@);
        }
        Some(string_from_chars(token.as_slice()))
    } else {
        None
    }
}

/// The text of the error answered when a request carries no token.
pub open spec fn not_authorized_text() -> Seq<char> {
    "Not Authorized"@
}

/// The text of the error answered when a token does not check.
pub open spec fn invalid_authorization_text() -> Seq<char> {
    "Invalid Authorization"@
}

/// The claims of a request's token. `token` is the token, if the request
/// carries one; `verified` is what checking its signature, algorithm and
/// expiry gave: its claims, or `None` when it did not pass.
pub fn decode_jwt(token: &Option<String>, verified: Option<Claims>) -> (res: Result<Claims, ApiError>)
    requires
        token is None ==> verified is None,
    ensures
        token is None ==> (res matches Err(e) && e.message@ == not_authorized_text()),
        token is Some && verified is None ==> (res matches Err(e) && e.message@
            == invalid_authorization_text()),
        verified matches Some(c) ==> res == Ok::<Claims, ApiError>(c),
{
    if token.is_none() {
        return Err(api_error("Not Authorized"));
    }
    match verified {
        Some(c) => Ok(c),
        None => Err(api_error("Invalid Authorization")),
    }
}

/// The claims of a request's token, checked with the service's key: an
/// error when the request carries no token or its token does not check.
pub fn decode_jwt_checked(token: &Option<String>) -> (res: Result<Claims, ApiError>)
    ensures
        token is None ==> (res matches Err(e) && e.message@ == not_authorized_text()),
        token matches Some(t) ==> (res matches Ok(c) ==> hs256_claims(t@, JWT_SECRET@) == Some(
            (c.sub@, c.exp),
        )),
        token matches Some(t) ==> (res matches Err(e) ==> e.message@ == invalid_authorization_text()),
        token matches Some(t) ==> (hs256_claims(t@, JWT_SECRET@) is None ==> res is Err),
{
    let verified = match token {
        Some(t) => decode_hs256(t, JWT_SECRET.as_slice()),
        None => None,
    };
    decode_jwt(token, verified)
}

/// The check that the user a token names still exists: the request to send,
/// with the user's id, or the error that ends authorization at once.
pub fn authorize(decoded: Result<Claims, ApiError>) -> (res: Result<(String, DbQuery), ApiError>)
    ensures
        decoded matches Err(e) ==> res == Err::<(String, DbQuery), ApiError>(e),
        decoded matches Ok(c) ==> res matches Ok((uid, q)) && uid@ == c.sub@ && is_query(
            q,
            Statement::UserExists,
            seq![Some(c.sub@)],
        ),
{
    match decoded {
        Err(e) => Err(e),
        Ok(claims) => {
            let q = query1(Statement::UserExists, &claims.sub);
            Ok((claims.sub, q))
        },
    }
}

/// The text of the error answered when a token names a user that is gone.
pub open spec fn user_not_found_text() -> Seq<char> {
    "User Not Found"@
}

/// The outcome of authorization, given what the database answered to the
/// check that user `uid` exists: `uid` when it does.
pub fn authorize_checked(uid: String, reply: Result<bool, DbError>) -> (res: Result<String, ApiError>)
    ensures
        reply == Ok::<bool, DbError>(true) ==> (res matches Ok(u) && u@ == uid@),
        reply == Ok::<bool, DbError>(false) ==> (res matches Err(e) && e.message@
            == internal_error_text()),
        reply matches Err(d) ==> res matches Err(e) && e.message@ == (if d.row_not_found {
            user_not_found_text()
        } else {
            internal_error_text()
        }),
{
    match reply {
        Ok(true) => Ok(uid),
        Ok(false) => Err(internal_error()),
        Err(d) => {
            if d.row_not_found {
                Err(api_error("User Not Found"))
            } else {
                Err(internal_error())
            }
        },
    }
}

} // verus!

verus! {

/// The bytes of `Bearer ` as a header carries them.
pub open spec fn bearer_prefix_bytes() -> Seq<u8> {
    seq![66u8, 101u8, 97u8, 114u8, 101u8, 114u8, 32u8]
}

/// The characters that header bytes read as.
pub open spec fn ascii_chars(bytes: Seq<u8>) -> Seq<char> {
    bytes.map_values(|b: u8| b as char)
}

/// A token sent as `Bearer <token>` is the token that is found in the
/// request, when the token is text that a header can carry and does not
/// itself begin with `Bearer `.
pub proof fn lemma_bearer_roundtrip(token: Seq<u8>)
    requires
        forall|i: int| 0 <= i < token.len() ==> is_visible_ascii(#[trigger] token[i]),
        !starts_with(ascii_chars(token), bearer_prefix()),
    ensures
        bearer_token(Some(bearer_prefix_bytes() + token)) == Some(ascii_chars(token)),
{
    let bytes = bearer_prefix_bytes() + token;
    assert forall|i: int| 0 <= i < bytes.len() implies is_visible_ascii(#[trigger] bytes[i]) by {
        if i >= 7 {
            assert(bytes[i] == token[i - 7]);
        }
    }
    let t = ascii_chars(bytes);
    assert(header_text(bytes) == Some(t));
    assert(t.take(6) =~= bearer_scheme());
    assert(t.take(7) =~= bearer_prefix());
    assert(t.skip(7) =~= ascii_chars(token));
    assert(strip_leading(t, bearer_prefix()) == strip_leading(t.skip(7), bearer_prefix()));
}

} // verus!
