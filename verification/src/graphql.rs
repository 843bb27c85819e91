//! The GraphQL side: who may run a request, and the resolvers' decisions.
use crate::copied_data::{insert_data, is_url_token, InsertData, InsertDataStage};
use crate::db::{is_query, opt_text, query1, query_opt, DbQuery, Statement};
use crate::model::{
    api_error, internal_error, internal_error_text, ApiError, DbError, TitleData, UrlInfo,
    UserData, UserInfo,
};
use crate::text::{
    chars_of, contains, contains_chars, decimal, lemma_parse_decimal_roundtrip, parse_i32,
    parse_i32_spec,
};
use vstd::prelude::*;

verus! {

/// The operation that may run without a token.
pub open spec fn public_operation() -> Seq<char> {
    seq!['G', 'e', 't', 'T', 'i', 't', 'l', 'e', 'D', 'a', 't', 'a']
}

/// The token text that a client sends when it holds no token.
pub open spec fn null_token() -> Seq<char> {
    seq!['n', 'u', 'l', 'l']
}

/// The text of the error answered to a request without a token that asks
/// for more than the public operation.
pub open spec fn not_authorized_request_text() -> Seq<char> {
    "Not Authorizerd"@
}

/// Whether a request carries no token: none at all, or the text `null`.
pub open spec fn is_anonymous(token: Option<Seq<char>>) -> bool {
    token is None || token == Some(null_token())
}

/// Who is admitted to run a GraphQL request.
#[derive(Debug, Clone, PartialEq, Eq)]
pub enum Gate {
    /// The request is refused with this error.
    Reject(ApiError),
    /// The request runs with no user.
    Anonymous,
    /// The request runs once this token is authorized.
    Authorize(String),
}

/// Who may run a GraphQL request, given its bearer token (`extract_jwt`) and
/// its query text: a request without a token runs with no user when its
/// query names the public operation and is refused otherwise; a request with
/// a token waits for the token to be authorized.
pub fn graphql_handler(token: Option<String>, query: &str) -> (res: Gate)
    ensures
        is_anonymous(opt_text(token)) ==> (if contains(query@, public_operation()) {
            res == Gate::Anonymous
        } else {
            res matches Gate::Reject(e) && e.message@ == not_authorized_request_text()
        }),
        !is_anonymous(opt_text(token)) ==> (res matches Gate::Authorize(t) && opt_text(token) == Some(
            t@,
        )),
{
    let null_chars: [char; 4] = ['n', 'u', 'l', 'l'];
    assert(null_chars@ == null_token());
    let anonymous = match &token {
        None => true,
        Some(t) => {
            let cs = chars_of(t.as_str());
            let same = cs.len() == 4 && cs[0] == 'n' && cs[1] == 'u' && cs[2] == 'l' && cs[3] == 'l';
            proof {
                if same {
                    assert(cs@ =~= null_token());
                } else if cs@ == null_token() {
                    assert(cs@[0] == 'n' && cs@[1] == 'u' && cs@[2] == 'l' && cs@[3] == 'l');
                }
            }
            same
        },
    };
    if anonymous {
        let q = chars_of(query);
        let op: [char; 12] = ['G', 'e', 't', 'T', 'i', 't', 'l', 'e', 'D', 'a', 't', 'a'];
        assert(op@ == public_operation());
        if contains_chars(q.as_slice(), op.as_slice()) {
            Gate::Anonymous
        } else {
            Gate::Reject(api_error("Not Authorizerd"))
        }
    } else {
        match token {
            Some(t) => Gate::Authorize(t),
            None => Gate::Anonymous,
        }
    }
}

/// The user a GraphQL request runs as, given the outcome of authorizing its
/// token: the authorized user, or the error that refuses the request.
pub fn admitted_user(authorized: Result<String, ApiError>) -> (res: Result<Option<String>, ApiError>)
    ensures
        authorized matches Ok(u) ==> (res matches Ok(Some(v)) && v@ == u@),
        authorized matches Err(e) ==> res == Err::<Option<String>, ApiError>(e),
{
    match authorized {
        Ok(u) => Ok(Some(u)),
        Err(e) => Err(e),
    }
}

/// The root of the GraphQL queries.
#[derive(Debug, Clone, Copy)]
pub struct Query;

/// The root of the GraphQL mutations.
#[derive(Debug, Clone, Copy)]
pub struct Mutation;

/// The text of the error answered when no snippet has the link asked for.
pub open spec fn data_not_found_text() -> Seq<char> {
    "Data Not Found"@
}

/// The id text that a request with no user is compared as.
pub open spec fn anonymous_id() -> Seq<char> {
    seq!['0']
}

/// The id text of a request's user, `0` when it has none.
pub open spec fn viewer_id(uid: Option<Seq<char>>) -> Seq<char> {
    match uid {
        Some(u) => u,
        None => anonymous_id(),
    }
}

/// A snippet as stored: its text, its title, and its owner's id.
#[derive(Debug, Clone, PartialEq, Eq)]
pub struct TitleRecord {
    pub data: String,
    pub title: String,
    pub user_id: i32,
}

impl Query {
    /// A fixed greeting, to check that the service answers.
    pub fn testing(&self) -> (res: String)
        ensures
            res@ == "Hello"@,
    {
        String::from_str("Hello")
    }

    /// The request that fetches the profile of the request's user.
    pub fn get_user_info(&self, uid: &Option<String>) -> (q: DbQuery)
        ensures
            is_query(q, Statement::UserProfile, seq![opt_text(*uid)]),
    {
        query_opt(Statement::UserProfile, uid)
    }

    /// The profile, given what the database answered to `get_user_info`.
    pub fn get_user_info_reply(&self, reply: Result<UserInfo, DbError>) -> (res: Result<
        UserInfo,
        ApiError,
    >)
        ensures
            reply matches Ok(u) ==> res == Ok::<UserInfo, ApiError>(u),
            reply is Err ==> (res matches Err(e) && e.message@ == internal_error_text()),
    {
        match reply {
            Ok(u) => Ok(u),
            Err(_) => Err(internal_error()),
        }
    }

    /// The request that lists the snippets of the request's user.
    pub fn get_title_list(&self, uid: &Option<String>) -> (q: DbQuery)
        ensures
            is_query(q, Statement::TitleList, seq![opt_text(*uid)]),
    {
        query_opt(Statement::TitleList, uid)
    }

    /// The user's snippets, given the rows, each a title and a link, that the
    /// database answered to `get_title_list`, in the same order.
    pub fn get_title_list_reply(&self, reply: Result<Vec<(String, String)>, DbError>) -> (res:
        Result<Vec<UserData>, ApiError>)
        ensures
            reply is Err ==> (res matches Err(e) && e.message@ == internal_error_text()),
            reply matches Ok(rows) ==> (res matches Ok(list) && list@.len() == rows@.len() && (forall|
                i: int,
            |
                0 <= i < rows@.len() ==> #[trigger] list@[i].title@ == rows@[i].0@ && list@[i].url@
                    == rows@[i].1@)),
    {
        match reply {
            Err(_) => Err(internal_error()),
            Ok(rows) => {
                let mut list: Vec<UserData> = Vec::new();
                let mut i: usize = 0;
                while i < rows.len()
                    invariant
                        i <= rows@.len(),
                        list@.len() == i,
                        forall|k: int|
                            0 <= k < i ==> #[trigger] list@[k].title@ == rows@[k].0@ && list@[k].url@
                                == rows@[k].1@,
                    decreases rows@.len() - i,
                {
                    let row = &rows[i];
                    list.push(UserData { title: row.0.clone(), url: row.1.clone() });
                    i = i + 1;
                }
                Ok(list)
            },
        }
    }

    /// The request that fetches the snippet stored under `url_token`.
    pub fn get_title_data(&self, url_token: &String) -> (q: DbQuery)
        ensures
            is_query(q, Statement::TitleByUrl, seq![Some(url_token@)]),
    {
        query1(Statement::TitleByUrl, url_token)
    }

    /// The snippet, given what the database answered to `get_title_data`; it
    /// may be edited when its owner is the request's user. A request's user
    /// id is the decimal text that its token carries, so it reads as an
    /// `i32`.
    pub fn get_title_data_reply(&self, uid: &Option<String>, reply: Result<TitleRecord, DbError>) -> (res:
        Result<TitleData, ApiError>)
        requires
            reply is Ok ==> parse_i32_spec(viewer_id(opt_text(*uid))) is Some,
        ensures
            reply matches Ok(r) ==> (res matches Ok(d) && d.title@ == r.title@ && d.data@
                == r.data@ && d.edit_action == (Some(r.user_id) == parse_i32_spec(
                viewer_id(opt_text(*uid)),
            ))),
            reply matches Err(x) ==> (res matches Err(e) && e.message@ == (if x.row_not_found {
                data_not_found_text()
            } else {
                internal_error_text()
            })),
    {
        match reply {
            Ok(r) => {
                let viewer = match uid {
                    Some(u) => parse_i32(u.as_str()),
                    None => {
                        proof {
                            lemma_parse_decimal_roundtrip(0);
                            assert(decimal(0) =~= anonymous_id());
                        }
                        Some(0)
                    },
                };
                let owner = match viewer {
                    Some(v) => v,
                    None => 0,
                };
                Ok(TitleData { title: r.title, data: r.data, edit_action: r.user_id == owner })
            },
            Err(x) => {
                if x.row_not_found {
                    Err(api_error("Data Not Found"))
                } else {
                    Err(internal_error())
                }
            },
        }
    }
}

impl Mutation {
    /// Starts storing snippet `data` titled `title` for the request's user,
    /// under a fresh random link; a request with no user may not store.
    pub fn insert_data(&self, uid: &Option<String>, data: String, title: String) -> (res: (
        InsertData,
        DbQuery,
    ))
        requires
            uid is Some,
        ensures
            Some(res.0.user@) == opt_text(*uid),
            res.0.text@ == data@,
            res.0.title@ == title@,
            is_url_token(res.0.url@),
            res.0.stage == InsertDataStage::CheckDuplicate,
            is_query(res.1, Statement::DataExists, seq![opt_text(*uid), Some(data@), Some(title@)]),
    {
        let user = match uid {
            Some(u) => u.clone(),
            None => String::new(),
        };
        insert_data(user, data, title)
    }

    /// The mutation's answer, given the outcome of storing the snippet.
    pub fn insert_data_reply(&self, stored: Result<String, ApiError>) -> (res: Result<UrlInfo, ApiError>)
        ensures
            stored matches Ok(u) ==> (res matches Ok(info) && info.url@ == u@),
            stored matches Err(e) ==> res == Err::<UrlInfo, ApiError>(e),
    {
        match stored {
            Ok(url) => Ok(UrlInfo { url }),
            Err(e) => Err(e),
        }
    }
}

} // verus!

verus! {

/// Who may edit a snippet: a request whose token carries the account id
/// `viewer` (in decimal, as tokens are issued) may edit exactly the
/// snippets owned by `viewer`, and a request with no user exactly those
/// owned by id 0. Either id text reads as an `i32`, as the resolver needs.
pub proof fn lemma_owner_may_edit(viewer: i32, owner: i32)
    ensures
        parse_i32_spec(viewer_id(Some(decimal(viewer as int)))) is Some,
        (Some(owner) == parse_i32_spec(viewer_id(Some(decimal(viewer as int))))) <==> owner
            == viewer,
        parse_i32_spec(viewer_id(None)) is Some,
        (Some(owner) == parse_i32_spec(viewer_id(None))) <==> owner == 0,
{
    lemma_parse_decimal_roundtrip(viewer);
    lemma_parse_decimal_roundtrip(0);
    assert(decimal(0) =~= anonymous_id());
}

} // verus!
