use pastebin::auth::{answer_at, issue_token_reply, login, sign_up, HttpReply, ReplyBody, ReplyStatus};
use pastebin::db::Statement;
use pastebin::graphql::{admitted_user, graphql_handler, Gate, Mutation, Query, TitleRecord};
use pastebin::model::{ApiError, DbError, UserInfo};

use jsonwebtoken::{decode, Algorithm, DecodingKey, Validation};

fn s(v: &str) -> String {
    v.to_string()
}

fn err(m: &str) -> ApiError {
    ApiError { message: s(m) }
}

fn refused() -> HttpReply {
    HttpReply { status: ReplyStatus::Forbidden, body: ReplyBody::Error(s("Wrong Credentials")) }
}

fn expiry_of(reply: &HttpReply) -> u64 {
    let token = match &reply.body {
        ReplyBody::Token(t) => t.clone(),
        ReplyBody::Error(e) => panic!("refused: {}", e),
    };
    let claims = decode::<serde_json::Value>(
        &token,
        &DecodingKey::from_secret(b"pastebin"),
        &Validation::new(Algorithm::HS256),
    )
    .unwrap()
    .claims;
    claims["exp"].as_u64().unwrap()
}

#[test]
fn login_and_sign_up_tokens_last_fifteen_minutes() {
    let before = chrono::Utc::now().timestamp() as u64;
    let a = expiry_of(&login(Ok(1)));
    let b = expiry_of(&sign_up(Ok(2)));
    let after = chrono::Utc::now().timestamp() as u64;
    for e in [a, b] {
        assert!(e >= before + 900 && e <= after + 900);
    }
}

fn subject_of(reply: &HttpReply) -> String {
    assert_eq!(reply.status, ReplyStatus::Success);
    let token = match &reply.body {
        ReplyBody::Token(t) => t.clone(),
        ReplyBody::Error(e) => panic!("refused: {}", e),
    };
    let claims = decode::<serde_json::Value>(
        &token,
        &DecodingKey::from_secret(b"pastebin"),
        &Validation::new(Algorithm::HS256),
    )
    .expect("a fresh token checks")
    .claims;
    claims["sub"].as_str().unwrap().to_string()
}

#[test]
fn greetings() {
    assert_eq!(pastebin::test(), "Hello world");
    assert_eq!(Query.testing(), "Hello");
}

#[test]
fn login_hands_out_a_token_for_the_account() {
    assert_eq!(subject_of(&login(Ok(42))), "42");
    assert_eq!(subject_of(&login(Ok(-3))), "-3");
}

#[test]
fn login_refuses_unknown_credentials() {
    assert_eq!(login(Err(err("Invalid Credentials"))), refused());
    assert_eq!(login(Err(err("Internal Server Error"))), refused());
}

#[test]
fn sign_up_hands_out_a_token_for_the_new_account() {
    assert_eq!(subject_of(&sign_up(Ok(7))), "7");
    assert_eq!(sign_up(Err(err("User Already present"))), refused());
}

#[test]
fn reply_with_fixed_expiry() {
    match issue_token_reply(Ok(1), Some(2000000000)).body {
        ReplyBody::Token(t) => assert_eq!(t.split('.').count(), 3),
        other => panic!("{:?}", other),
    }
    assert_eq!(issue_token_reply(Ok(1), None), refused());
}

#[test]
fn anonymous_requests_may_only_read_a_snippet() {
    assert_eq!(graphql_handler(None, "query GetTitleData($u: String!) {}"), Gate::Anonymous);
    assert_eq!(graphql_handler(Some(s("null")), "{ GetTitleData }"), Gate::Anonymous);
    assert_eq!(graphql_handler(None, "query GetTitleList {}"), Gate::Reject(err("Not Authorizerd")));
    assert_eq!(graphql_handler(Some(s("null")), "{ getUserInfo }"), Gate::Reject(err("Not Authorizerd")));
}

#[test]
fn requests_with_a_token_are_authorized_first() {
    assert_eq!(graphql_handler(Some(s("abc")), "{ x }"), Gate::Authorize(s("abc")));
    assert_eq!(graphql_handler(Some(s("nul")), "GetTitleData"), Gate::Authorize(s("nul")));
    assert_eq!(graphql_handler(Some(s("")), "{ x }"), Gate::Authorize(s("")));
}

#[test]
fn admitted_user_follows_authorization() {
    assert_eq!(admitted_user(Ok(s("5"))), Ok(Some(s("5"))));
    assert_eq!(admitted_user(Err(err("User Not Found"))), Err(err("User Not Found")));
}

fn db_err(row_not_found: bool) -> DbError {
    DbError { row_not_found, message: s("m") }
}

#[test]
fn profile_of_the_user() {
    let q = Query.get_user_info(&Some(s("5")));
    assert_eq!(q.statement, Statement::UserProfile);
    assert_eq!(q.binds, vec![Some(s("5"))]);
    let info = UserInfo { name: s("ann"), email: s("a@x") };
    assert_eq!(Query.get_user_info_reply(Ok(info.clone())), Ok(info));
    assert_eq!(Query.get_user_info_reply(Err(db_err(true))), Err(err("Internal Server Error")));
}

#[test]
fn list_keeps_the_rows_order() {
    let q = Query.get_title_list(&None);
    assert_eq!(q.statement, Statement::TitleList);
    assert_eq!(q.binds, vec![None]);
    let rows = vec![(s("b"), s("u2")), (s("a"), s("u1"))];
    let list = Query.get_title_list_reply(Ok(rows)).unwrap();
    assert_eq!(list.len(), 2);
    assert_eq!((list[0].title.as_str(), list[0].url.as_str()), ("b", "u2"));
    assert_eq!((list[1].title.as_str(), list[1].url.as_str()), ("a", "u1"));
    assert_eq!(Query.get_title_list_reply(Ok(vec![])), Ok(vec![]));
    assert_eq!(Query.get_title_list_reply(Err(db_err(false))), Err(err("Internal Server Error")));
}

fn snippet(owner: i32) -> TitleRecord {
    TitleRecord { data: s("body"), title: s("t"), user_id: owner }
}

#[test]
fn owner_may_edit_a_snippet() {
    let q = Query.get_title_data(&s("AbCdEfGh12"));
    assert_eq!(q.statement, Statement::TitleByUrl);
    assert_eq!(q.binds, vec![Some(s("AbCdEfGh12"))]);
    let d = Query.get_title_data_reply(&Some(s("3")), Ok(snippet(3))).unwrap();
    assert!(d.edit_action);
    assert_eq!((d.title.as_str(), d.data.as_str()), ("t", "body"));
    let d = Query.get_title_data_reply(&Some(s("4")), Ok(snippet(3))).unwrap();
    assert!(!d.edit_action);
}

#[test]
fn anonymous_reader_may_not_edit() {
    let d = Query.get_title_data_reply(&None, Ok(snippet(3))).unwrap();
    assert!(!d.edit_action);
    let d = Query.get_title_data_reply(&None, Ok(snippet(0))).unwrap();
    assert!(d.edit_action);
}

#[test]
fn missing_snippet_and_broken_database() {
    assert_eq!(Query.get_title_data_reply(&None, Err(db_err(true))), Err(err("Data Not Found")));
    assert_eq!(Query.get_title_data_reply(&None, Err(db_err(false))), Err(err("Internal Server Error")));
}

#[test]
fn storing_starts_with_the_users_id() {
    let (st, q) = Mutation.insert_data(&Some(s("8")), s("text"), s("title"));
    assert_eq!(st.user, "8");
    assert_eq!(q.statement, Statement::DataExists);
    assert_eq!(q.binds, vec![Some(s("8")), Some(s("text")), Some(s("title"))]);
    assert_eq!(Mutation.insert_data_reply(Ok(s("AAAAAAAAAA"))).unwrap().url, "AAAAAAAAAA");
    assert_eq!(Mutation.insert_data_reply(Err(err("x"))), Err(err("x")));
}

#[test]
fn answer_at_a_given_second() {
    match answer_at(Ok(5), 100).body {
        ReplyBody::Token(t) => assert_eq!(t.split('.').count(), 3),
        other => panic!("{:?}", other),
    }
    assert_eq!(answer_at(Ok(5), 8210266876799), refused());
    assert_eq!(answer_at(Err(err("Invalid Credentials")), 100), refused());
}
