//! The dialects of the database, and the statements the stores send to it.
//!
//! A statement names what a store wants; [`Statement::query`] writes it as
//! SQL for one dialect. The text of a query is made of the statement's kind,
//! the table's name and the dialect's placeholders only: every value travels
//! as a bound parameter.
use vstd::prelude::*;
use vstd::string::*;
use crate::text::{decimal, decimal_text, same_text};

verus! {

/// A backend family. SQLite and MySQL mark a parameter with `?`; PostgreSQL
/// numbers its parameters `$1`, `$2`, and so on. MySQL may hand a column over
/// as bytes where the others hand over text.
#[derive(Clone, Copy, Debug, PartialEq, Eq, Structural)]
pub enum Dialect {
    Sqlite,
    Mysql,
    Postgres,
}

/// How to reach the database: the dialect's tag and the connection
/// parameters. Without a tag the in-process SQLite backend is meant.
#[derive(Debug, Clone)]
pub struct DatabaseOpts {
    pub _type: Option<String>,
    pub host: Option<String>,
    pub user: String,
    pub pass: String,
    pub name: String,
}

/// The dialect that a tag selects: `sqlite` and `mysql` name themselves, and
/// every other tag selects the numbered placeholders of PostgreSQL.
pub open spec fn dialect_of_tag(tag: Seq<char>) -> Dialect {
    if tag == "sqlite"@ {
        Dialect::Sqlite
    } else if tag == "mysql"@ {
        Dialect::Mysql
    } else {
        Dialect::Postgres
    }
}

impl Dialect {
    /// Whether parameters are numbered (`$n`) rather than positional (`?`).
    pub open spec fn numbered(self) -> bool {
        self is Postgres
    }

    /// The dialect that a tag selects.
    pub fn from_tag(tag: &str) -> (r: Dialect)
        ensures
            r == dialect_of_tag(tag@),
    {
        if same_text(tag, "sqlite") {
            Dialect::Sqlite
        } else if same_text(tag, "mysql") {
            Dialect::Mysql
        } else {
            Dialect::Postgres
        }
    }

    /// Whether parameters are numbered.
    pub fn is_numbered(self) -> (r: bool)
        ensures
            r == self.numbered(),
    {
        match self {
            Dialect::Postgres => true,
            _ => false,
        }
    }
}

impl DatabaseOpts {
    /// The dialect these options select: SQLite where no tag is given.
    pub open spec fn spec_dialect(self) -> Dialect {
        match self._type {
            Some(tag) => dialect_of_tag(tag@),
            None => Dialect::Sqlite,
        }
    }

    /// The dialect these options select.
    pub fn dialect(&self) -> (r: Dialect)
        ensures
            r == self.spec_dialect(),
    {
        match &self._type {
            Some(tag) => Dialect::from_tag(tag.as_str()),
            None => Dialect::Sqlite,
        }
    }
}

/// A value bound to a placeholder.
#[derive(Debug, Clone, PartialEq)]
pub enum Param {
    Text(String),
    Int(i64),
}

/// The mathematical value of a [`Param`].
pub enum ParamView {
    Text(Seq<char>),
    Int(int),
}

impl View for Param {
    type V = ParamView;

    open spec fn view(&self) -> ParamView {
        match self {
            Param::Text(t) => ParamView::Text(t@),
            Param::Int(i) => ParamView::Int(*i as int),
        }
    }
}

/// What the database is to hand back.
#[derive(Clone, Copy, Debug, PartialEq, Eq, Structural)]
pub enum Fetch {
    /// Exactly one row; none is an outcome of its own.
    One,
    /// All rows that match, in order.
    All,
    /// Nothing but whether the statement ran.
    Nothing,
}

/// SQL text with the values to bind, in the order of the placeholders.
#[derive(Debug, Clone, PartialEq)]
pub struct Query {
    pub text: String,
    pub params: Vec<Param>,
    pub fetch: Fetch,
}

/// The mathematical value of a [`Query`].
pub struct QueryView {
    pub text: Seq<char>,
    pub params: Seq<ParamView>,
    pub fetch: Fetch,
}

impl View for Query {
    type V = QueryView;

    open spec fn view(&self) -> QueryView {
        QueryView {
            text: self.text@,
            params: Seq::new(self.params.len() as nat, |i: int| self.params[i]@),
            fetch: self.fetch,
        }
    }
}

/// What a store asks of the database. Tables are named by the store that
/// asks.
#[derive(Debug, Clone, PartialEq)]
pub enum Statement {
    /// The user whose hashed identifier is `id_hashed`.
    UserByHashedId { table: String, id_hashed: String },
    /// A user whose metadata contains `needle`.
    UserByMetadata { table: String, needle: String },
    /// The user called `username`.
    UserByUsername { table: String, username: String },
    /// The log entry with this identifier.
    LogById { table: String, id: String },
    /// The log entries of one type whose content contains `needle`, newest
    /// first, at most `limit` of them after skipping `offset`.
    LogsByContent { table: String, logtype: String, needle: String, limit: u32, offset: i32 },
    /// A new log entry.
    InsertLog { table: String, id: String, logtype: String, timestamp: u128, content: String },
    /// New content for the log entry with this identifier.
    UpdateLog { table: String, id: String, content: String },
    /// The end of the log entry with this identifier.
    DeleteLog { table: String, id: String },
}

/// The mathematical value of a [`Statement`].
pub enum StatementView {
    UserByHashedId { table: Seq<char>, id_hashed: Seq<char> },
    UserByMetadata { table: Seq<char>, needle: Seq<char> },
    UserByUsername { table: Seq<char>, username: Seq<char> },
    LogById { table: Seq<char>, id: Seq<char> },
    LogsByContent {
        table: Seq<char>,
        logtype: Seq<char>,
        needle: Seq<char>,
        limit: u32,
        offset: i32,
    },
    InsertLog {
        table: Seq<char>,
        id: Seq<char>,
        logtype: Seq<char>,
        timestamp: u128,
        content: Seq<char>,
    },
    UpdateLog { table: Seq<char>, id: Seq<char>, content: Seq<char> },
    DeleteLog { table: Seq<char>, id: Seq<char> },
}

impl View for Statement {
    type V = StatementView;

    open spec fn view(&self) -> StatementView {
        match self {
            Statement::UserByHashedId { table, id_hashed } => StatementView::UserByHashedId {
                table: table@,
                id_hashed: id_hashed@,
            },
            Statement::UserByMetadata { table, needle } => StatementView::UserByMetadata {
                table: table@,
                needle: needle@,
            },
            Statement::UserByUsername { table, username } => StatementView::UserByUsername {
                table: table@,
                username: username@,
            },
            Statement::LogById { table, id } => StatementView::LogById { table: table@, id: id@ },
            Statement::LogsByContent {
                table,
                logtype,
                needle,
                limit,
                offset,
            } => StatementView::LogsByContent {
                table: table@,
                logtype: logtype@,
                needle: needle@,
                limit: *limit,
                offset: *offset,
            },
            Statement::InsertLog {
                table,
                id,
                logtype,
                timestamp,
                content,
            } => StatementView::InsertLog {
                table: table@,
                id: id@,
                logtype: logtype@,
                timestamp: *timestamp,
                content: content@,
            },
            Statement::UpdateLog { table, id, content } => StatementView::UpdateLog {
                table: table@,
                id: id@,
                content: content@,
            },
            Statement::DeleteLog { table, id } => StatementView::DeleteLog {
                table: table@,
                id: id@,
            },
        }
    }
}

/// A pattern that matches every text containing `needle`.
pub open spec fn like_pattern(needle: Seq<char>) -> Seq<char> {
    "%"@ + needle + "%"@
}

impl StatementView {
    /// The table the statement is about.
    pub open spec fn table(self) -> Seq<char> {
        match self {
            StatementView::UserByHashedId { table, .. } => table,
            StatementView::UserByMetadata { table, .. } => table,
            StatementView::UserByUsername { table, .. } => table,
            StatementView::LogById { table, .. } => table,
            StatementView::LogsByContent { table, .. } => table,
            StatementView::InsertLog { table, .. } => table,
            StatementView::UpdateLog { table, .. } => table,
            StatementView::DeleteLog { table, .. } => table,
        }
    }

    /// The SQL before the table's name.
    pub open spec fn head(self) -> Seq<char> {
        match self {
            StatementView::InsertLog { .. } => "INSERT INTO \""@,
            StatementView::UpdateLog { .. } => "UPDATE \""@,
            StatementView::DeleteLog { .. } => "DELETE FROM \""@,
            _ => "SELECT * FROM \""@,
        }
    }

    /// The SQL after the table's name, with the placeholders of the dialect.
    pub open spec fn tail(self, numbered: bool) -> Seq<char> {
        match self {
            StatementView::UserByHashedId { .. } => if numbered {
                "\" WHERE \"id_hashed\" = $1"@
            } else {
                "\" WHERE \"id_hashed\" = ?"@
            },
            StatementView::UserByMetadata { .. } => if numbered {
                "\" WHERE \"metadata\" LIKE $1"@
            } else {
                "\" WHERE \"metadata\" LIKE ?"@
            },
            StatementView::UserByUsername { .. } => if numbered {
                "\" WHERE \"username\" = $1"@
            } else {
                "\" WHERE \"username\" = ?"@
            },
            StatementView::LogById { .. } => if numbered {
                "\" WHERE \"id\" = $1"@
            } else {
                "\" WHERE \"id\" = ?"@
            },
            StatementView::LogsByContent { .. } => if numbered {
                "\" WHERE \"content\" LIKE $1 AND \"logtype\" = $2 ORDER BY \"timestamp\" DESC LIMIT $3 OFFSET $4"@
            } else {
                "\" WHERE \"content\" LIKE ? AND \"logtype\" = ? ORDER BY \"timestamp\" DESC LIMIT ? OFFSET ?"@
            },
            StatementView::InsertLog { .. } => if numbered {
                "\" VALUES ($1, $2, $3, $4)"@
            } else {
                "\" VALUES (?, ?, ?, ?)"@
            },
            StatementView::UpdateLog { .. } => if numbered {
                "\" SET (\"content\") = ($1) WHERE \"id\" = $2"@
            } else {
                "\" SET \"content\" = ? WHERE \"id\" = ?"@
            },
            StatementView::DeleteLog { .. } => if numbered {
                "\" WHERE \"id\" = $1"@
            } else {
                "\" WHERE \"id\" = ?"@
            },
        }
    }

    /// The values to bind, in the order of the placeholders.
    pub open spec fn params(self) -> Seq<ParamView> {
        match self {
            StatementView::UserByHashedId { id_hashed, .. } => seq![ParamView::Text(id_hashed)],
            StatementView::UserByMetadata { needle, .. } => seq![
                ParamView::Text(like_pattern(needle)),
            ],
            StatementView::UserByUsername { username, .. } => seq![ParamView::Text(username)],
            StatementView::LogById { id, .. } => seq![ParamView::Text(id)],
            StatementView::LogsByContent { logtype, needle, limit, offset, .. } => seq![
                ParamView::Text(like_pattern(needle)),
                ParamView::Text(logtype),
                ParamView::Int(limit as int),
                ParamView::Int(offset as int),
            ],
            StatementView::InsertLog { id, logtype, timestamp, content, .. } => seq![
                ParamView::Text(id),
                ParamView::Text(logtype),
                ParamView::Text(decimal(timestamp as nat)),
                ParamView::Text(content),
            ],
            StatementView::UpdateLog { id, content, .. } => seq![
                ParamView::Text(content),
                ParamView::Text(id),
            ],
            StatementView::DeleteLog { id, .. } => seq![ParamView::Text(id)],
        }
    }

    /// What the database is to hand back.
    pub open spec fn fetch(self) -> Fetch {
        match self {
            StatementView::UserByHashedId { .. } => Fetch::One,
            StatementView::UserByMetadata { .. } => Fetch::One,
            StatementView::UserByUsername { .. } => Fetch::One,
            StatementView::LogById { .. } => Fetch::One,
            StatementView::LogsByContent { .. } => Fetch::All,
            _ => Fetch::Nothing,
        }
    }

    /// The statement as a query in one dialect.
    pub open spec fn query(self, dialect: Dialect) -> QueryView {
        QueryView {
            text: self.head() + self.table() + self.tail(dialect.numbered()),
            params: self.params(),
            fetch: self.fetch(),
        }
    }
}

/// `%`, the needle, `%`.
fn like_text(needle: &str) -> (r: String)
    ensures
        r@ == like_pattern(needle@),
{
    let mut r = String::from_str("%");
    r.append(needle);
    r.append("%");
    r
}

impl Statement {
    /// The table the statement is about.
    pub fn table(&self) -> (r: &String)
        ensures
            r@ == self@.table(),
    {
        match self {
            Statement::UserByHashedId { table, .. } => table,
            Statement::UserByMetadata { table, .. } => table,
            Statement::UserByUsername { table, .. } => table,
            Statement::LogById { table, .. } => table,
            Statement::LogsByContent { table, .. } => table,
            Statement::InsertLog { table, .. } => table,
            Statement::UpdateLog { table, .. } => table,
            Statement::DeleteLog { table, .. } => table,
        }
    }

    /// The SQL before the table's name.
    fn head(&self) -> (r: &'static str)
        ensures
            r@ == self@.head(),
    {
        match self {
            Statement::InsertLog { .. } => "INSERT INTO \"",
            Statement::UpdateLog { .. } => "UPDATE \"",
            Statement::DeleteLog { .. } => "DELETE FROM \"",
            _ => "SELECT * FROM \"",
        }
    }

    /// The SQL after the table's name.
    fn tail(&self, numbered: bool) -> (r: &'static str)
        ensures
            r@ == self@.tail(numbered),
    {
        match self {
            Statement::UserByHashedId { .. } => if numbered {
                "\" WHERE \"id_hashed\" = $1"
            } else {
                "\" WHERE \"id_hashed\" = ?"
            },
            Statement::UserByMetadata { .. } => if numbered {
                "\" WHERE \"metadata\" LIKE $1"
            } else {
                "\" WHERE \"metadata\" LIKE ?"
            },
            Statement::UserByUsername { .. } => if numbered {
                "\" WHERE \"username\" = $1"
            } else {
                "\" WHERE \"username\" = ?"
            },
            Statement::LogById { .. } => if numbered {
                "\" WHERE \"id\" = $1"
            } else {
                "\" WHERE \"id\" = ?"
            },
            Statement::LogsByContent { .. } => if numbered {
                "\" WHERE \"content\" LIKE $1 AND \"logtype\" = $2 ORDER BY \"timestamp\" DESC LIMIT $3 OFFSET $4"
            } else {
                "\" WHERE \"content\" LIKE ? AND \"logtype\" = ? ORDER BY \"timestamp\" DESC LIMIT ? OFFSET ?"
            },
            Statement::InsertLog { .. } => if numbered {
                "\" VALUES ($1, $2, $3, $4)"
            } else {
                "\" VALUES (?, ?, ?, ?)"
            },
            Statement::UpdateLog { .. } => if numbered {
                "\" SET (\"content\") = ($1) WHERE \"id\" = $2"
            } else {
                "\" SET \"content\" = ? WHERE \"id\" = ?"
            },
            Statement::DeleteLog { .. } => if numbered {
                "\" WHERE \"id\" = $1"
            } else {
                "\" WHERE \"id\" = ?"
            },
        }
    }

    /// The values to bind, in the order of the placeholders.
    fn params(&self) -> (r: Vec<Param>)
        ensures
            Seq::new(r.len() as nat, |i: int| r[i]@) == self@.params(),
    {
        let mut r: Vec<Param> = Vec::new();
        match self {
            Statement::UserByHashedId { id_hashed, .. } => {
                r.push(Param::Text(id_hashed.clone()));
            },
            Statement::UserByMetadata { needle, .. } => {
                r.push(Param::Text(like_text(needle.as_str())));
            },
            Statement::UserByUsername { username, .. } => {
                r.push(Param::Text(username.clone()));
            },
            Statement::LogById { id, .. } => {
                r.push(Param::Text(id.clone()));
            },
            Statement::LogsByContent { logtype, needle, limit, offset, .. } => {
                r.push(Param::Text(like_text(needle.as_str())));
                r.push(Param::Text(logtype.clone()));
                r.push(Param::Int(*limit as i64));
                r.push(Param::Int(*offset as i64));
            },
            Statement::InsertLog { id, logtype, timestamp, content, .. } => {
                r.push(Param::Text(id.clone()));
                r.push(Param::Text(logtype.clone()));
                r.push(Param::Text(decimal_text(*timestamp)));
                r.push(Param::Text(content.clone()));
            },
            Statement::UpdateLog { id, content, .. } => {
                r.push(Param::Text(content.clone()));
                r.push(Param::Text(id.clone()));
            },
            Statement::DeleteLog { id, .. } => {
                r.push(Param::Text(id.clone()));
            },
        }
        assert(Seq::new(r.len() as nat, |i: int| r[i]@) =~= self@.params());
        r
    }

    /// What the database is to hand back.
    pub fn fetch(&self) -> (r: Fetch)
        ensures
            r == self@.fetch(),
    {
        match self {
            Statement::UserByHashedId { .. } => Fetch::One,
            Statement::UserByMetadata { .. } => Fetch::One,
            Statement::UserByUsername { .. } => Fetch::One,
            Statement::LogById { .. } => Fetch::One,
            Statement::LogsByContent { .. } => Fetch::All,
            _ => Fetch::Nothing,
        }
    }

    /// Writes the statement as a query in one dialect.
    pub fn query(&self, dialect: Dialect) -> (r: Query)
        ensures
            r@ == self@.query(dialect),
    {
        let mut text = String::from_str(self.head());
        text.append(self.table().as_str());
        text.append(self.tail(dialect.is_numbered()));
        Query { text, params: self.params(), fetch: self.fetch() }
    }
}

} // verus!
