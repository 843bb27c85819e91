//! The statements that the service sends to its database, and the requests
//! built from them.
use vstd::prelude::*;

verus! {

/// A statement of the service's schema and queries.
#[derive(Debug, Clone, Copy, PartialEq, Eq, Structural)]
pub enum Statement {
    CreateUsers,
    CreateUrl,
    CreateCopiedData,
    CreateUserUrl,
    CreateDataUrl,
    CreateUserData,
    UserNameTaken,
    InsertUser,
    UserIdByEmail,
    UserByEmail,
    UserExists,
    DataExists,
    InsertText,
    InsertUrl,
    LinkDataUrl,
    LinkUserUrl,
    LinkUserData,
    UserProfile,
    TitleList,
    TitleByUrl,
}

/// The SQL text of a statement.
pub open spec fn statement_sql(s: Statement) -> Seq<char> {
    match s {
        Statement::CreateUsers => "CREATE TABLE IF NOT EXISTS users (id INTEGER PRIMARY KEY AUTOINCREMENT,name TEXT not null, email TEXT UNIQUE NOT NULL,password TEXT);"@,
        Statement::CreateUrl => "CREATE TABLE IF NOT EXISTS url (id INTEGER PRIMARY KEY AUTOINCREMENT,url TEXT);"@,
        Statement::CreateCopiedData => "CREATE TABLE IF NOT EXISTS copied_data (id INTEGER PRIMARY KEY AUTOINCREMENT,data TEXT,title TEXT);"@,
        Statement::CreateUserUrl => "CREATE TABLE IF NOT EXISTS user_url (user_id INTEGER REFERENCES users(id),url_id INTEGER REFERENCES url(id));"@,
        Statement::CreateDataUrl => "CREATE TABLE IF NOT EXISTS data_url (data_id INTEGER REFERENCES copied_data(id) , url_id INTEGER REFERENCES url(id) );"@,
        Statement::CreateUserData => "CREATE TABLE IF NOT EXISTS user_data(user_id INTEGER REFERENCES users(id),data_id INTEGER REFERENCES copied_data(id));"@,
        Statement::UserNameTaken => "Select EXISTS (SELECT 1 FROM USERS where name like $1);"@,
        Statement::InsertUser => "INSERT INTO users(name,email,password) values ($1,$2,$3);"@,
        Statement::UserIdByEmail => "Select ID FROM USERS where email like $1;"@,
        Statement::UserByEmail => "SELECT * from users where email = $1;"@,
        Statement::UserExists => "SELECT EXISTS (SELECT 1 FROM USERS WHERE id = $1);"@,
        Statement::DataExists => "SELECT EXISTS (SELECT 1 from user_data a, copied_data b where a.user_id = $1 and a.data_id = b.id and b.data like $2 and b.title = $3);"@,
        Statement::InsertText => "INSERT INTO copied_data (data,title) VALUES($1,$2);"@,
        Statement::InsertUrl => "INSERT INTO url (url) VALUES ($1);"@,
        Statement::LinkDataUrl => "INSERT INTO data_url(data_id,url_id) VALUES((select id from copied_data where data like $1 and title like $2 and id not in (SELECT data_id from user_data)),(select id from url where url like $3));"@,
        Statement::LinkUserUrl => "INSERT INTO user_url(user_id,url_id) VALUES ($1,(select id from url where url like $2));"@,
        Statement::LinkUserData => "INSERT INTO user_data(user_id,data_id) VALUES ($1,(select id from copied_data where data like $2 and title like $3 and id not in (SELECT data_id from user_data)));"@,
        Statement::UserProfile => "SELECT name,email from USERS where id = $1;"@,
        Statement::TitleList => "SELECT a.user_id,c.title,d.url FROM user_data a,data_url b,copied_data c,url d where a.user_id = $1 and a.data_id = c.id and b.data_id = a.data_id and b.url_id = d.id;"@,
        Statement::TitleByUrl => "SELECT a.data,a.title,d.user_id FROM copied_data a , data_url b,url c, user_data d where c.url = $1 and c.id = b.url_id and b.data_id = a.id and a.id = d.data_id;"@,
    }
}

impl Statement {
    /// The SQL text of the statement.
    pub fn sql(&self) -> (res: &'static str)
        ensures
            res@ == statement_sql(*self),
    {
        match self {
            Statement::CreateUsers => "CREATE TABLE IF NOT EXISTS users (id INTEGER PRIMARY KEY AUTOINCREMENT,name TEXT not null, email TEXT UNIQUE NOT NULL,password TEXT);",
            Statement::CreateUrl => "CREATE TABLE IF NOT EXISTS url (id INTEGER PRIMARY KEY AUTOINCREMENT,url TEXT);",
            Statement::CreateCopiedData => "CREATE TABLE IF NOT EXISTS copied_data (id INTEGER PRIMARY KEY AUTOINCREMENT,data TEXT,title TEXT);",
            Statement::CreateUserUrl => "CREATE TABLE IF NOT EXISTS user_url (user_id INTEGER REFERENCES users(id),url_id INTEGER REFERENCES url(id));",
            Statement::CreateDataUrl => "CREATE TABLE IF NOT EXISTS data_url (data_id INTEGER REFERENCES copied_data(id) , url_id INTEGER REFERENCES url(id) );",
            Statement::CreateUserData => "CREATE TABLE IF NOT EXISTS user_data(user_id INTEGER REFERENCES users(id),data_id INTEGER REFERENCES copied_data(id));",
            Statement::UserNameTaken => "Select EXISTS (SELECT 1 FROM USERS where name like $1);",
            Statement::InsertUser => "INSERT INTO users(name,email,password) values ($1,$2,$3);",
            Statement::UserIdByEmail => "Select ID FROM USERS where email like $1;",
            Statement::UserByEmail => "SELECT * from users where email = $1;",
            Statement::UserExists => "SELECT EXISTS (SELECT 1 FROM USERS WHERE id = $1);",
            Statement::DataExists => "SELECT EXISTS (SELECT 1 from user_data a, copied_data b where a.user_id = $1 and a.data_id = b.id and b.data like $2 and b.title = $3);",
            Statement::InsertText => "INSERT INTO copied_data (data,title) VALUES($1,$2);",
            Statement::InsertUrl => "INSERT INTO url (url) VALUES ($1);",
            Statement::LinkDataUrl => "INSERT INTO data_url(data_id,url_id) VALUES((select id from copied_data where data like $1 and title like $2 and id not in (SELECT data_id from user_data)),(select id from url where url like $3));",
            Statement::LinkUserUrl => "INSERT INTO user_url(user_id,url_id) VALUES ($1,(select id from url where url like $2));",
            Statement::LinkUserData => "INSERT INTO user_data(user_id,data_id) VALUES ($1,(select id from copied_data where data like $2 and title like $3 and id not in (SELECT data_id from user_data)));",
            Statement::UserProfile => "SELECT name,email from USERS where id = $1;",
            Statement::TitleList => "SELECT a.user_id,c.title,d.url FROM user_data a,data_url b,copied_data c,url d where a.user_id = $1 and a.data_id = c.id and b.data_id = a.data_id and b.url_id = d.id;",
            Statement::TitleByUrl => "SELECT a.data,a.title,d.user_id FROM copied_data a , data_url b,url c, user_data d where c.url = $1 and c.id = b.url_id and b.data_id = a.id and a.id = d.data_id;",
        }
    }
}

/// The message with which the service stops when a table of its schema
/// cannot be created.
pub open spec fn creation_failure_text(s: Statement) -> Option<Seq<char>> {
    match s {
        Statement::CreateUsers => Some("Failed to create the user table"@),
        Statement::CreateUrl => Some("Failed to create Url table"@),
        Statement::CreateCopiedData => Some("Failed to create coiped data table"@),
        Statement::CreateUserUrl => Some("Failed to create user_url table"@),
        Statement::CreateDataUrl => Some("Failed to create data url table"@),
        Statement::CreateUserData => Some("Failed to create the user_data table"@),
        _ => None,
    }
}

impl Statement {
    /// The message with which the service stops when this statement, one
    /// that creates a table, fails; `None` for the other statements.
    pub fn creation_failure(&self) -> (res: Option<&'static str>)
        ensures
            res matches Some(m) ==> creation_failure_text(*self) == Some(m@),
            res is None ==> creation_failure_text(*self) is None,
    {
        match self {
            Statement::CreateUsers => Some("Failed to create the user table"),
            Statement::CreateUrl => Some("Failed to create Url table"),
            Statement::CreateCopiedData => Some("Failed to create coiped data table"),
            Statement::CreateUserUrl => Some("Failed to create user_url table"),
            Statement::CreateDataUrl => Some("Failed to create data url table"),
            Statement::CreateUserData => Some("Failed to create the user_data table"),
            _ => None,
        }
    }
}

/// A statement with the values bound to its parameters, in order; `None`
/// binds SQL `NULL`.
#[derive(Debug, Clone, PartialEq, Eq)]
pub struct DbQuery {
    pub statement: Statement,
    pub binds: Vec<Option<String>>,
}

/// The text of an optional value.
pub open spec fn opt_text(v: Option<String>) -> Option<Seq<char>> {
    match v {
        Some(s) => Some(s@),
        None => None,
    }
}

/// The values bound to a request's parameters.
pub open spec fn binds_of(q: DbQuery) -> Seq<Option<Seq<char>>> {
    q.binds@.map_values(|b: Option<String>| opt_text(b))
}

/// Whether `q` runs statement `s` with the values `binds`.
pub open spec fn is_query(q: DbQuery, s: Statement, binds: Seq<Option<Seq<char>>>) -> bool {
    q.statement == s && binds_of(q) == binds
}

/// A request that binds one text value.
pub fn query1(statement: Statement, a: &String) -> (q: DbQuery)
    ensures
        is_query(q, statement, seq![Some(a@)]),
{
    let mut binds: Vec<Option<String>> = Vec::new();
    binds.push(Some(a.clone()));
    let q = DbQuery { statement, binds };
    assert(binds_of(q) =~= seq![Some(a@)]);
    q
}

/// A request that binds two text values.
pub fn query2(statement: Statement, a: &String, b: &String) -> (q: DbQuery)
    ensures
        is_query(q, statement, seq![Some(a@), Some(b@)]),
{
    let mut binds: Vec<Option<String>> = Vec::new();
    binds.push(Some(a.clone()));
    binds.push(Some(b.clone()));
    let q = DbQuery { statement, binds };
    assert(binds_of(q) =~= seq![Some(a@), Some(b@)]);
    q
}

/// A request that binds three text values.
pub fn query3(statement: Statement, a: &String, b: &String, c: &String) -> (q: DbQuery)
    ensures
        is_query(q, statement, seq![Some(a@), Some(b@), Some(c@)]),
{
    let mut binds: Vec<Option<String>> = Vec::new();
    binds.push(Some(a.clone()));
    binds.push(Some(b.clone()));
    binds.push(Some(c.clone()));
    let q = DbQuery { statement, binds };
    assert(binds_of(q) =~= seq![Some(a@), Some(b@), Some(c@)]);
    q
}

/// A request that binds one value that may be `NULL`.
pub fn query_opt(statement: Statement, a: &Option<String>) -> (q: DbQuery)
    ensures
        is_query(q, statement, seq![opt_text(*a)]),
{
    let mut binds: Vec<Option<String>> = Vec::new();
    let v = match a {
        Some(s) => Some(s.clone()),
        None => None,
    };
    binds.push(v);
    let q = DbQuery { statement, binds };
    assert(binds_of(q) =~= seq![opt_text(*a)]);
    q
}

/// The schema's tables, in the order in which they are created.
pub open spec fn schema() -> Seq<Statement> {
    seq![
        Statement::CreateUsers,
        Statement::CreateUrl,
        Statement::CreateCopiedData,
        Statement::CreateUserUrl,
        Statement::CreateDataUrl,
        Statement::CreateUserData,
    ]
}

/// The statements that create the schema, in the order in which they run:
/// a table is created after every table that it refers to.
pub fn init_table() -> (res: Vec<Statement>)
    ensures
        res@ == schema(),
{
    let mut res: Vec<Statement> = Vec::new();
    res.push(Statement::CreateUsers);
    res.push(Statement::CreateUrl);
    res.push(Statement::CreateCopiedData);
    res.push(Statement::CreateUserUrl);
    res.push(Statement::CreateDataUrl);
    res.push(Statement::CreateUserData);
    assert(res@ =~= schema());
    res
}

} // verus!

verus! {

/// What a step of a conversation with the database leads to: another
/// request, with the state to resume from when its answer comes, or the end
/// of the conversation with its outcome.
#[derive(Debug)]
pub enum Next<S, T> {
    Query(S, DbQuery),
    Done(Result<T, crate::model::ApiError>),
}

} // verus!

verus! {

/// The schema: `users` keeps an account's name, email and password under an
/// id the database assigns; `url` keeps links; `copied_data` keeps a
/// snippet's data and title; `user_url`, `data_url` and `user_data` tie
/// users, links and snippets together. Each table is created only when it
/// does not exist yet, and `init_table` creates them in this order.
pub proof fn lemma_schema_statements()
    ensures
        statement_sql(Statement::CreateUsers) == "CREATE TABLE IF NOT EXISTS users (id INTEGER PRIMARY KEY AUTOINCREMENT,name TEXT not null, email TEXT UNIQUE NOT NULL,password TEXT);"@,
        statement_sql(Statement::CreateUrl) == "CREATE TABLE IF NOT EXISTS url (id INTEGER PRIMARY KEY AUTOINCREMENT,url TEXT);"@,
        statement_sql(Statement::CreateCopiedData) == "CREATE TABLE IF NOT EXISTS copied_data (id INTEGER PRIMARY KEY AUTOINCREMENT,data TEXT,title TEXT);"@,
        statement_sql(Statement::CreateUserUrl) == "CREATE TABLE IF NOT EXISTS user_url (user_id INTEGER REFERENCES users(id),url_id INTEGER REFERENCES url(id));"@,
        statement_sql(Statement::CreateDataUrl) == "CREATE TABLE IF NOT EXISTS data_url (data_id INTEGER REFERENCES copied_data(id) , url_id INTEGER REFERENCES url(id) );"@,
        statement_sql(Statement::CreateUserData) == "CREATE TABLE IF NOT EXISTS user_data(user_id INTEGER REFERENCES users(id),data_id INTEGER REFERENCES copied_data(id));"@,
        schema() == seq![
            Statement::CreateUsers,
            Statement::CreateUrl,
            Statement::CreateCopiedData,
            Statement::CreateUserUrl,
            Statement::CreateDataUrl,
            Statement::CreateUserData,
        ],
{
}

/// Logging in fetches the `users` row whose `email` column equals the one
/// value bound, the email given.
pub proof fn lemma_login_lookup(q: DbQuery, email: Seq<char>)
    requires
        is_query(q, Statement::UserByEmail, seq![Some(email)]),
    ensures
        statement_sql(Statement::UserByEmail) == "SELECT * from users where email = $1;"@,
        binds_of(q) == seq![Some(email)],
{
}

/// Signing up asks whether a `users` row's name is like the first bind;
/// stores the binds, in order, as the new row's `name`, `email` and
/// `password`; and fetches the id of the row whose email is like the bind.
/// With the binds that sign-up uses (name, email, password), the stored
/// email is the one the id is then fetched by.
pub proof fn lemma_sign_up_statements(q: DbQuery, name: Seq<char>, email: Seq<char>, password: Seq<char>)
    requires
        is_query(q, Statement::InsertUser, seq![Some(name), Some(email), Some(password)]),
    ensures
        statement_sql(Statement::UserNameTaken) == "Select EXISTS (SELECT 1 FROM USERS where name like $1);"@,
        statement_sql(Statement::InsertUser) == "INSERT INTO users(name,email,password) values ($1,$2,$3);"@,
        statement_sql(Statement::UserIdByEmail) == "Select ID FROM USERS where email like $1;"@,
        binds_of(q)[1] == Some(email),
        binds_of(q)[2] == Some(password),
{
}

/// Authorizing a token asks whether a `users` row has the token's subject as
/// its id.
pub proof fn lemma_authorize_statement()
    ensures
        statement_sql(Statement::UserExists) == "SELECT EXISTS (SELECT 1 FROM USERS WHERE id = $1);"@,
{
}

/// Storing a snippet: the duplicate check binds the user, the data and the
/// title; the snippet row stores bind 1 as `data` and bind 2 as `title`, the
/// order in which the later statements find it again (`data like $1 and
/// title like $2`, or `$2` and `$3` after the user); the link row stores its
/// one bind; the three ties join the snippet, the link and the user.
pub proof fn lemma_store_statements(q: DbQuery, text: Seq<char>, title: Seq<char>)
    requires
        is_query(q, Statement::InsertText, seq![Some(text), Some(title)]),
    ensures
        statement_sql(Statement::DataExists) == "SELECT EXISTS (SELECT 1 from user_data a, copied_data b where a.user_id = $1 and a.data_id = b.id and b.data like $2 and b.title = $3);"@,
        statement_sql(Statement::InsertText) == "INSERT INTO copied_data (data,title) VALUES($1,$2);"@,
        statement_sql(Statement::InsertUrl) == "INSERT INTO url (url) VALUES ($1);"@,
        statement_sql(Statement::LinkDataUrl) == "INSERT INTO data_url(data_id,url_id) VALUES((select id from copied_data where data like $1 and title like $2 and id not in (SELECT data_id from user_data)),(select id from url where url like $3));"@,
        statement_sql(Statement::LinkUserUrl) == "INSERT INTO user_url(user_id,url_id) VALUES ($1,(select id from url where url like $2));"@,
        statement_sql(Statement::LinkUserData) == "INSERT INTO user_data(user_id,data_id) VALUES ($1,(select id from copied_data where data like $2 and title like $3 and id not in (SELECT data_id from user_data)));"@,
        binds_of(q) == seq![Some(text), Some(title)],
{
}

/// Reading: a user's profile is the `name` and `email` columns of the
/// `users` row with the bound id; the list gives each of the user's
/// snippets' `title` and `url`; a link gives its snippet's stored `data` in
/// the column `data`, its stored `title` in the column `title`, and the
/// owner's id in `user_id`.
pub proof fn lemma_read_statements()
    ensures
        statement_sql(Statement::UserProfile) == "SELECT name,email from USERS where id = $1;"@,
        statement_sql(Statement::TitleList) == "SELECT a.user_id,c.title,d.url FROM user_data a,data_url b,copied_data c,url d where a.user_id = $1 and a.data_id = c.id and b.data_id = a.data_id and b.url_id = d.id;"@,
        statement_sql(Statement::TitleByUrl) == "SELECT a.data,a.title,d.user_id FROM copied_data a , data_url b,url c, user_data d where c.url = $1 and c.id = b.url_id and b.data_id = a.id and a.id = d.data_id;"@,
{
}

} // verus!
