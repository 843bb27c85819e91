use jsonwebtoken::{decode, Algorithm, DecodingKey, Validation};
use pastebin::jwt::{
    authorize, authorize_checked, create_jwt, create_jwt_at, decode_jwt, extract_jwt,
    create_jwt_issued_at, decode_jwt_checked, token_expiration, TokenError,
    JWT_SECRET, TOKEN_LIFETIME_MINUTES,
};
use pastebin::db::Statement;
use pastebin::model::{ApiError, Claims, DbError};

struct Seen {
    sub: String,
    exp: u64,
    keys: Vec<String>,
}

fn read_token(token: &str) -> Seen {
    let mut validation = Validation::new(Algorithm::HS256);
    validation.validate_exp = false;
    let claims = decode::<serde_json::Value>(token, &DecodingKey::from_secret(b"pastebin"), &validation)
        .expect("token checks")
        .claims;
    let object = claims.as_object().expect("claims are an object");
    Seen {
        sub: object["sub"].as_str().expect("sub is text").to_string(),
        exp: object["exp"].as_u64().expect("exp is a number"),
        keys: object.keys().cloned().collect(),
    }
}

#[test]
fn secret_is_pastebin() {
    assert_eq!(&JWT_SECRET, b"pastebin");
    assert_eq!(TOKEN_LIFETIME_MINUTES, 15);
}

#[test]
fn token_carries_subject_and_expiry() {
    let token = create_jwt_at(&"7".to_string(), Some(1000)).expect("signed");
    assert_eq!(token.split('.').count(), 3);
    assert_ne!(token, "7");
    let seen = read_token(&token);
    assert_eq!(seen.sub, "7");
    assert_eq!(seen.exp, 1000);
}

#[test]
fn token_is_the_same_for_the_same_claims() {
    let a = create_jwt_at(&"abc".to_string(), Some(5)).unwrap();
    let b = create_jwt_at(&"abc".to_string(), Some(5)).unwrap();
    let c = create_jwt_at(&"abd".to_string(), Some(5)).unwrap();
    assert_eq!(a, b);
    assert_ne!(a, c);
}

#[test]
fn token_claims_are_sub_then_exp() {
    let token = create_jwt_at(&"12".to_string(), Some(1700000000)).unwrap();
    let seen = read_token(&token);
    assert_eq!(seen.keys, vec!["sub".to_string(), "exp".to_string()]);
    let header = jsonwebtoken::decode_header(&token).unwrap();
    assert_eq!(header.alg, Algorithm::HS256);
    assert_eq!(header.typ, Some("JWT".to_string()));
}

#[test]
fn token_signed_with_another_key_does_not_check() {
    let token = create_jwt_at(&"12".to_string(), Some(1700000000)).unwrap();
    let mut validation = Validation::new(Algorithm::HS256);
    validation.validate_exp = false;
    assert!(decode::<serde_json::Value>(&token, &DecodingKey::from_secret(b"other"), &validation).is_err());
}

#[test]
fn token_refused_without_expiration() {
    assert!(matches!(create_jwt_at(&"1".to_string(), None), Err(TokenError::ExpirationOutOfRange)));
}

#[test]
fn token_from_clock_expires_in_fifteen_minutes() {
    let before = chrono::Utc::now().timestamp() as u64;
    let token = create_jwt(&"3".to_string()).expect("signed");
    let after = chrono::Utc::now().timestamp() as u64;
    let seen = read_token(&token);
    assert_eq!(seen.sub, "3");
    assert!(seen.exp >= before + 900 && seen.exp <= after + 900);
}

#[test]
fn bearer_token_is_found() {
    assert_eq!(extract_jwt(Some(b"Bearer abc.def")), Some("abc.def".to_string()));
    assert_eq!(extract_jwt(Some(b"Bearer null")), Some("null".to_string()));
    assert_eq!(extract_jwt(Some(b"Bearer ")), Some(String::new()));
}

#[test]
fn every_leading_bearer_is_removed() {
    assert_eq!(extract_jwt(Some(b"Bearer Bearer x")), Some("x".to_string()));
    assert_eq!(extract_jwt(Some(b"Bearerx")), Some("Bearerx".to_string()));
    assert_eq!(extract_jwt(Some(b"Bearer")), Some("Bearer".to_string()));
}

#[test]
fn missing_or_foreign_header_gives_no_token() {
    assert_eq!(extract_jwt(None), None);
    assert_eq!(extract_jwt(Some(b"bearer abc")), None);
    assert_eq!(extract_jwt(Some(b"Basic abc")), None);
    assert_eq!(extract_jwt(Some(b"Bearer a\x00b")), None);
    assert_eq!(extract_jwt(Some(&[66, 101, 97, 114, 101, 114, 32, 0xff])), None);
}

#[test]
fn token_with_tab_is_text() {
    assert_eq!(extract_jwt(Some(b"Bearer a\tb")), Some("a\tb".to_string()));
}

fn claims(sub: &str) -> Claims {
    Claims { sub: sub.to_string(), exp: 99 }
}

#[test]
fn decoding_without_token_is_not_authorized() {
    let e = decode_jwt(&None, None).unwrap_err();
    assert_eq!(e.message, "Not Authorized");
}

#[test]
fn decoding_a_bad_token_is_invalid() {
    let e = decode_jwt(&Some("x".to_string()), None).unwrap_err();
    assert_eq!(e.message, "Invalid Authorization");
}

#[test]
fn decoding_a_good_token_gives_its_claims() {
    assert_eq!(decode_jwt(&Some("x".to_string()), Some(claims("4"))), Ok(claims("4")));
}

#[test]
fn authorization_asks_whether_the_user_exists() {
    let (uid, q) = authorize(Ok(claims("4"))).unwrap();
    assert_eq!(uid, "4");
    assert_eq!(q.statement, Statement::UserExists);
    assert_eq!(q.binds, vec![Some("4".to_string())]);
    let e = ApiError { message: "Not Authorized".to_string() };
    assert_eq!(authorize(Err(e.clone())).unwrap_err(), e);
}

#[test]
fn authorization_outcomes() {
    assert_eq!(authorize_checked("4".to_string(), Ok(true)), Ok("4".to_string()));
    assert_eq!(
        authorize_checked("4".to_string(), Ok(false)).unwrap_err().message,
        "Internal Server Error"
    );
    let gone = DbError { row_not_found: true, message: "no rows".to_string() };
    assert_eq!(authorize_checked("4".to_string(), Err(gone)).unwrap_err().message, "User Not Found");
    let broken = DbError { row_not_found: false, message: "disk".to_string() };
    assert_eq!(
        authorize_checked("4".to_string(), Err(broken)).unwrap_err().message,
        "Internal Server Error"
    );
}

#[test]
fn tokens_expire_fifteen_minutes_later() {
    assert_eq!(token_expiration(0), Some(900));
    assert_eq!(token_expiration(1_700_000_000), Some(1_700_000_900));
}

#[test]
fn expiry_beyond_representable_dates_is_refused() {
    assert_eq!(token_expiration(i64::MAX - 10), None);
    assert_eq!(token_expiration(8_300_000_000_000), None);
}

#[test]
fn expiry_at_the_edges_of_representable_dates() {
    assert_eq!(token_expiration(8210266876799 - 900), Some(8210266876799));
    assert_eq!(token_expiration(8210266876799 - 899), None);
    assert_eq!(token_expiration(-8334601228800), Some(-8334601227900));
    assert_eq!(token_expiration(-8334601228801), None);
}

#[test]
fn token_issued_at_a_given_second() {
    let t = create_jwt_issued_at(&"8".to_string(), 1_000).unwrap();
    let seen = read_token(&t);
    assert_eq!((seen.sub.as_str(), seen.exp), ("8", 1_900));
    assert!(matches!(
        create_jwt_issued_at(&"8".to_string(), 8210266876799),
        Err(TokenError::ExpirationOutOfRange)
    ));
}

#[test]
fn an_issued_token_is_accepted_with_its_claims() {
    let t = create_jwt(&"21".to_string()).unwrap();
    let c = decode_jwt_checked(&Some(t)).unwrap();
    assert_eq!(c.sub, "21");
    let now = chrono::Utc::now().timestamp() as usize;
    assert!(c.exp >= now + 899 && c.exp <= now + 900);
}

#[test]
fn checking_refuses_missing_foreign_and_expired_tokens() {
    assert_eq!(decode_jwt_checked(&None).unwrap_err().message, "Not Authorized");
    assert_eq!(decode_jwt_checked(&Some("a.b.c".to_string())).unwrap_err().message, "Invalid Authorization");
    let expired = create_jwt_at(&"1".to_string(), Some(1000)).unwrap();
    assert_eq!(decode_jwt_checked(&Some(expired)).unwrap_err().message, "Invalid Authorization");
    let mut claims = serde_json::Map::new();
    claims.insert("sub".to_string(), serde_json::Value::from("1"));
    claims.insert("exp".to_string(), serde_json::Value::from(9_999_999_999u64));
    let foreign = jsonwebtoken::encode(
        &jsonwebtoken::Header::new(Algorithm::HS256),
        &claims,
        &jsonwebtoken::EncodingKey::from_secret(b"other"),
    )
    .unwrap();
    assert_eq!(decode_jwt_checked(&Some(foreign)).unwrap_err().message, "Invalid Authorization");
    let mut numeric_sub = serde_json::Map::new();
    numeric_sub.insert("sub".to_string(), serde_json::Value::from(1));
    numeric_sub.insert("exp".to_string(), serde_json::Value::from(9_999_999_999u64));
    let odd = jsonwebtoken::encode(
        &jsonwebtoken::Header::new(Algorithm::HS256),
        &numeric_sub,
        &jsonwebtoken::EncodingKey::from_secret(b"pastebin"),
    )
    .unwrap();
    assert_eq!(decode_jwt_checked(&Some(odd)).unwrap_err().message, "Invalid Authorization");
}
