//! Storing a snippet under a fresh random link.
use crate::db::{is_query, query1, query2, query3, DbQuery, Next, Statement};
use crate::model::{api_error, api_error_from_db, internal_error, internal_error_text, DbError};
use crate::text::push_char;
use vstd::prelude::*;

verus! {

/// How many characters a snippet's link has.
pub const URL_TOKEN_LEN: usize = 10;

/// Whether `b` is an ASCII letter or digit.
pub open spec fn is_alphanumeric_byte(b: u8) -> bool {
    (48 <= b && b <= 57) || (65 <= b && b <= 90) || (97 <= b && b <= 122)
}

/// Whether `c` is an ASCII letter or digit.
pub open spec fn is_alphanumeric_char(c: char) -> bool {
    ('0' <= c && c <= '9') || ('A' <= c && c <= 'Z') || ('a' <= c && c <= 'z')
}

/// Whether `s` has the shape of a snippet's link: `URL_TOKEN_LEN` ASCII
/// letters and digits.
pub open spec fn is_url_token(s: Seq<char>) -> bool {
    &&& s.len() == URL_TOKEN_LEN
    &&& forall|i: int| 0 <= i < s.len() ==> is_alphanumeric_char(#[trigger] s[i])
}

/// One character drawn at random from the 62 ASCII letters and digits, by
/// `rand`'s `Alphanumeric` distribution on the thread's generator.
///
/// Trusted: the distribution samples from the table
/// `A-Z a-z 0-9` and returns one of its bytes; which one depends on chance.
#[verifier::external_body]
fn random_alphanumeric() -> (b: u8)
    ensures
        is_alphanumeric_byte(b),
{
    rand::Rng::sample(&mut rand::thread_rng(), rand::distributions::Alphanumeric)
}

/// A fresh link: `URL_TOKEN_LEN` letters and digits drawn at random.
pub fn new_url_token() -> (res: String)
    ensures
        is_url_token(res@),
{
    let mut res = String::new();
    let mut i: usize = 0;
    while i < URL_TOKEN_LEN
        invariant
            i <= URL_TOKEN_LEN,
            res@.len() == i,
            forall|k: int| 0 <= k < res@.len() ==> is_alphanumeric_char(#[trigger] res@[k]),
        decreases URL_TOKEN_LEN - i,
    {
        let b = random_alphanumeric();
        let c = b as char;
        push_char(&mut res, c);
        i = i + 1;
    }
    res
}

/// Where the storing of a snippet stands.
#[derive(Debug, Clone, Copy, PartialEq, Eq, Structural)]
pub enum InsertDataStage {
    /// Waiting to learn whether the user already stored this snippet.
    CheckDuplicate,
    /// Waiting for the snippet's text to be stored.
    StoreText,
    /// Waiting for the link to be stored.
    StoreUrl,
    /// Waiting for the snippet to be tied to its link.
    LinkDataToUrl,
    /// Waiting for the user to be tied to the link.
    LinkUserToUrl,
    /// Waiting for the user to be tied to the snippet.
    LinkUserToData,
}

/// The storing of a snippet in progress: the owner's id, the snippet, its
/// title, and the link it will be reached by.
#[derive(Debug, Clone)]
pub struct InsertData {
    pub user: String,
    pub text: String,
    pub title: String,
    pub url: String,
    pub stage: InsertDataStage,
}

/// Whether `b` is the storing `a` moved on to `stage`.
pub open spec fn insert_moved(a: InsertData, b: InsertData, stage: InsertDataStage) -> bool {
    &&& b.user@ == a.user@
    &&& b.text@ == a.text@
    &&& b.title@ == a.title@
    &&& b.url@ == a.url@
    &&& b.stage == stage
}

/// The text of the error answered when the user already stored this snippet.
pub open spec fn duplicate_text() -> Seq<char> {
    "Data Already Present"@
}

/// Starts storing snippet `text` titled `title` for user `user` under the
/// link `url`: first ask whether the user already stored it.
pub fn insert_data_with_url(user: String, text: String, title: String, url: String) -> (res: (
    InsertData,
    DbQuery,
))
    ensures
        res.0.user@ == user@,
        res.0.text@ == text@,
        res.0.title@ == title@,
        res.0.url@ == url@,
        res.0.stage == InsertDataStage::CheckDuplicate,
        is_query(res.1, Statement::DataExists, seq![Some(user@), Some(text@), Some(title@)]),
{
    let q = query3(Statement::DataExists, &user, &text, &title);
    (InsertData { user, text, title, url, stage: InsertDataStage::CheckDuplicate }, q)
}

/// Starts storing snippet `text` titled `title` for user `user`, under a
/// fresh random link.
pub fn insert_data(user: String, text: String, title: String) -> (res: (InsertData, DbQuery))
    ensures
        res.0.user@ == user@,
        res.0.text@ == text@,
        res.0.title@ == title@,
        is_url_token(res.0.url@),
        res.0.stage == InsertDataStage::CheckDuplicate,
        is_query(res.1, Statement::DataExists, seq![Some(user@), Some(text@), Some(title@)]),
{
    let url = new_url_token();
    insert_data_with_url(user, text, title, url)
}

impl InsertData {
    /// The next step once the database said whether the user already stored
    /// this snippet: store its text when not.
    pub fn duplicate_checked(self, reply: Result<bool, DbError>) -> (res: Next<InsertData, String>)
        requires
            self.stage == InsertDataStage::CheckDuplicate,
        ensures
            reply matches Err(d) ==> (res matches Next::Done(Err(e)) && e.message@ == d.message@),
            reply == Ok::<bool, DbError>(true) ==> (res matches Next::Done(Err(e)) && e.message@
                == duplicate_text()),
            reply == Ok::<bool, DbError>(false) ==> (res matches Next::Query(s, q) && insert_moved(
                self,
                s,
                InsertDataStage::StoreText,
            ) && is_query(q, Statement::InsertText, seq![Some(self.text@), Some(self.title@)])),
    {
        match reply {
            Err(d) => Next::Done(Err(api_error_from_db(&d))),
            Ok(true) => Next::Done(Err(api_error("Data Already Present"))),
            Ok(false) => {
                let q = query2(Statement::InsertText, &self.text, &self.title);
                Next::Query(InsertData { stage: InsertDataStage::StoreText, ..self }, q)
            },
        }
    }

    /// The next step once the database answered a request that stores or
    /// ties something: the snippet's text, then its link, then the snippet to
    /// the link, the user to the link, and the user to the snippet; the link
    /// is the outcome once all of them are done.
    pub fn executed(self, reply: Result<(), DbError>) -> (res: Next<InsertData, String>)
        requires
            self.stage != InsertDataStage::CheckDuplicate,
        ensures
            reply matches Err(d) ==> (res matches Next::Done(Err(e)) && e.message@ == (if self.stage
                == InsertDataStage::StoreText {
                d.message@
            } else {
                internal_error_text()
            })),
            reply is Ok ==> match self.stage {
                InsertDataStage::StoreText => res matches Next::Query(s, q) && insert_moved(
                    self,
                    s,
                    InsertDataStage::StoreUrl,
                ) && is_query(q, Statement::InsertUrl, seq![Some(self.url@)]),
                InsertDataStage::StoreUrl => res matches Next::Query(s, q) && insert_moved(
                    self,
                    s,
                    InsertDataStage::LinkDataToUrl,
                ) && is_query(
                    q,
                    Statement::LinkDataUrl,
                    seq![Some(self.text@), Some(self.title@), Some(self.url@)],
                ),
                InsertDataStage::LinkDataToUrl => res matches Next::Query(s, q) && insert_moved(
                    self,
                    s,
                    InsertDataStage::LinkUserToUrl,
                ) && is_query(q, Statement::LinkUserUrl, seq![Some(self.user@), Some(self.url@)]),
                InsertDataStage::LinkUserToUrl => res matches Next::Query(s, q) && insert_moved(
                    self,
                    s,
                    InsertDataStage::LinkUserToData,
                ) && is_query(
                    q,
                    Statement::LinkUserData,
                    seq![Some(self.user@), Some(self.text@), Some(self.title@)],
                ),
                _ => res matches Next::Done(Ok(u)) && u@ == self.url@,
            },
    {
        match reply {
            Err(d) => {
                if self.stage == InsertDataStage::StoreText {
                    Next::Done(Err(api_error_from_db(&d)))
                } else {
                    Next::Done(Err(internal_error()))
                }
            },
            Ok(()) => match self.stage {
                InsertDataStage::StoreText => {
                    let q = query1(Statement::InsertUrl, &self.url);
                    Next::Query(InsertData { stage: InsertDataStage::StoreUrl, ..self }, q)
                },
                InsertDataStage::StoreUrl => {
                    let q = query3(Statement::LinkDataUrl, &self.text, &self.title, &self.url);
                    Next::Query(InsertData { stage: InsertDataStage::LinkDataToUrl, ..self }, q)
                },
                InsertDataStage::LinkDataToUrl => {
                    let q = query2(Statement::LinkUserUrl, &self.user, &self.url);
                    Next::Query(InsertData { stage: InsertDataStage::LinkUserToUrl, ..self }, q)
                },
                InsertDataStage::LinkUserToUrl => {
                    let q = query3(Statement::LinkUserData, &self.user, &self.text, &self.title);
                    Next::Query(InsertData { stage: InsertDataStage::LinkUserToData, ..self }, q)
                },
                _ => Next::Done(Ok(self.url)),
            },
        }
    }
}

} // verus!

verus! {

/// A link's characters are exactly the 62 ASCII letters and digits: the
/// bytes 48–57, 65–90 and 97–122, each read as the character of that code.
pub proof fn lemma_link_alphabet(b: u8, s: Seq<char>)
    ensures
        is_alphanumeric_byte(b) <==> (48 <= b <= 57 || 65 <= b <= 90 || 97 <= b <= 122),
        is_alphanumeric_byte(b) ==> is_alphanumeric_char(b as char),
        is_url_token(s) <==> (s.len() == 10 && forall|i: int|
            0 <= i < s.len() ==> ('0' <= #[trigger] s[i] <= '9' || 'A' <= s[i] <= 'Z' || 'a' <= s[i]
                <= 'z')),
{
}

} // verus!
