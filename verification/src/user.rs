//! Accounts: signing up and checking credentials.
use crate::db::{is_query, query1, query3, DbQuery, Next, Statement};
use crate::model::{
    api_error, api_error_from_db, internal_error, internal_error_text, ApiError, DbError,
};
use vstd::prelude::*;

verus! {

/// A user's row as stored.
#[derive(Debug, Clone, PartialEq, Eq)]
pub struct UserRecord {
    pub id: i32,
    pub email: String,
    pub password: String,
}

/// The text of the error answered to credentials that do not match.
pub open spec fn invalid_credentials_text() -> Seq<char> {
    "Invalid Credentials"@
}

/// The request that fetches the account registered under `email`.
pub fn check_user_query(email: &String) -> (q: DbQuery)
    ensures
        is_query(q, Statement::UserByEmail, seq![Some(email@)]),
{
    query1(Statement::UserByEmail, email)
}

/// The id of the account that `email` and `password` log into, given what
/// the database answered to `check_user_query(email)`: the stored email and
/// password must both equal the given ones.
pub fn check_user(email: &String, password: &String, reply: Result<UserRecord, DbError>) -> (res:
    Result<i32, ApiError>)
    ensures
        reply matches Ok(r) ==> (if r.email@ == email@ && r.password@ == password@ {
            res == Ok::<i32, ApiError>(r.id)
        } else {
            res matches Err(e) && e.message@ == invalid_credentials_text()
        }),
        reply matches Err(d) ==> (res matches Err(e) && e.message@ == (if d.row_not_found {
            invalid_credentials_text()
        } else {
            internal_error_text()
        })),
{
    match reply {
        Ok(r) => {
            if r.email != *email || r.password != *password {
                Err(api_error("Invalid Credentials"))
            } else {
                Ok(r.id)
            }
        },
        Err(d) => {
            if d.row_not_found {
                Err(api_error("Invalid Credentials"))
            } else {
                Err(internal_error())
            }
        },
    }
}

/// Where a sign-up stands.
#[derive(Debug, Clone, Copy, PartialEq, Eq, Structural)]
pub enum SignUpStage {
    /// Waiting to learn whether the name is taken.
    CheckName,
    /// Waiting for the new account to be stored.
    Insert,
    /// Waiting for the new account's id.
    FetchId,
}

/// A sign-up in progress.
#[derive(Debug, Clone)]
pub struct InsertUser {
    pub name: String,
    pub password: String,
    pub email: String,
    pub stage: SignUpStage,
}

/// Whether `b` is the sign-up `a` moved on to `stage`.
pub open spec fn sign_up_moved(a: InsertUser, b: InsertUser, stage: SignUpStage) -> bool {
    &&& b.name@ == a.name@
    &&& b.password@ == a.password@
    &&& b.email@ == a.email@
    &&& b.stage == stage
}

/// The text of the error answered when the name is taken.
pub open spec fn name_taken_text() -> Seq<char> {
    "User Already present"@
}

/// The text of the error answered when storing the account fails.
pub open spec fn sign_up_failed_text() -> Seq<char> {
    "Unable to SignUp"@
}

/// Starts a sign-up: first ask whether an account already has the name.
pub fn insert_user(name: String, password: String, email: String) -> (res: (InsertUser, DbQuery))
    ensures
        res.0.name@ == name@,
        res.0.password@ == password@,
        res.0.email@ == email@,
        res.0.stage == SignUpStage::CheckName,
        is_query(res.1, Statement::UserNameTaken, seq![Some(name@)]),
{
    let q = query1(Statement::UserNameTaken, &name);
    (InsertUser { name, password, email, stage: SignUpStage::CheckName }, q)
}

impl InsertUser {
    /// The next step once the database said whether the name is taken:
    /// store the account when it is free.
    pub fn name_checked(self, reply: Result<bool, DbError>) -> (res: Next<InsertUser, i32>)
        requires
            self.stage == SignUpStage::CheckName,
        ensures
            reply matches Err(d) ==> (res matches Next::Done(Err(e)) && e.message@ == d.message@),
            reply == Ok::<bool, DbError>(true) ==> (res matches Next::Done(Err(e)) && e.message@
                == name_taken_text()),
            reply == Ok::<bool, DbError>(false) ==> (res matches Next::Query(s, q) && sign_up_moved(
                self,
                s,
                SignUpStage::Insert,
            ) && is_query(
                q,
                Statement::InsertUser,
                seq![Some(self.name@), Some(self.email@), Some(self.password@)],
            )),
    {
        match reply {
            Err(d) => Next::Done(Err(api_error_from_db(&d))),
            Ok(true) => Next::Done(Err(api_error("User Already present"))),
            Ok(false) => {
                let q = query3(Statement::InsertUser, &self.name, &self.email, &self.password);
                Next::Query(InsertUser { stage: SignUpStage::Insert, ..self }, q)
            },
        }
    }

    /// The next step once the database answered the request that stores the
    /// account: fetch the new account's id.
    pub fn inserted(self, reply: Result<(), DbError>) -> (res: Next<InsertUser, i32>)
        requires
            self.stage == SignUpStage::Insert,
        ensures
            reply is Err ==> (res matches Next::Done(Err(e)) && e.message@ == sign_up_failed_text()),
            reply is Ok ==> (res matches Next::Query(s, q) && sign_up_moved(
                self,
                s,
                SignUpStage::FetchId,
            ) && is_query(q, Statement::UserIdByEmail, seq![Some(self.email@)])),
    {
        match reply {
            Err(_) => Next::Done(Err(api_error("Unable to SignUp"))),
            Ok(()) => {
                let q = query1(Statement::UserIdByEmail, &self.email);
                Next::Query(InsertUser { stage: SignUpStage::FetchId, ..self }, q)
            },
        }
    }

    /// The outcome of the sign-up, given the new account's id as the
    /// database answered it.
    pub fn id_fetched(self, reply: Result<i32, DbError>) -> (res: Result<i32, ApiError>)
        requires
            self.stage == SignUpStage::FetchId,
        ensures
            reply matches Ok(id) ==> res == Ok::<i32, ApiError>(id),
            reply is Err ==> (res matches Err(e) && e.message@ == internal_error_text()),
    {
        match reply {
            Ok(id) => Ok(id),
            Err(_) => Err(internal_error()),
        }
    }
}

} // verus!
