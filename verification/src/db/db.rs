//! The base that all stores share: the dialect, the cache, and the row
//! projector that turns what a driver hands over into text.
use vstd::prelude::*;
use vstd::string::*;
use crate::db::cachedb::CacheDB;
use crate::db::sql::{DatabaseOpts, Dialect, Statement, StatementView};
use crate::text::{same_text, text_view};

verus! {

/// The envelope in which an outcome is handed to a caller of the API.
#[derive(Debug, Clone)]
pub struct DefaultReturn<T> {
    pub success: bool,
    pub message: String,
    pub payload: T,
}

/// One row with every column as text. Where a column's name stands more than
/// once, the last one counts.
#[derive(Debug, Clone)]
pub struct DatabaseReturn {
    pub data: Vec<(String, String)>,
}

/// What a list of columns stands for: a map from a column's name to its
/// text, a later column overriding an earlier one of the same name.
pub open spec fn columns_map(data: Seq<(String, String)>) -> Map<Seq<char>, Seq<char>>
    decreases data.len(),
{
    if data.len() == 0 {
        Map::empty()
    } else {
        columns_map(data.drop_last()).insert(data.last().0@, data.last().1@)
    }
}

impl View for DatabaseReturn {
    type V = Map<Seq<char>, Seq<char>>;

    open spec fn view(&self) -> Map<Seq<char>, Seq<char>> {
        columns_map(self.data@)
    }
}

/// The value under `key`, if the map has the key.
pub open spec fn lookup(m: Map<Seq<char>, Seq<char>>, key: Seq<char>) -> Option<Seq<char>> {
    if m.contains_key(key) {
        Some(m[key])
    } else {
        None
    }
}

/// Columns after the last one called `key` do not change what is found
/// under `key`.
proof fn lemma_columns_tail(data: Seq<(String, String)>, key: Seq<char>, n: int)
    requires
        0 <= n <= data.len(),
        forall|k: int| n <= k < data.len() ==> data[k].0@ != key,
    ensures
        lookup(columns_map(data), key) == lookup(columns_map(data.subrange(0, n)), key),
    decreases data.len() - n,
{
    if n == data.len() {
        assert(data.subrange(0, n) =~= data);
    } else {
        let shorter = data.drop_last();
        assert(data.last().0@ != key);
        lemma_columns_tail(shorter, key, n);
        assert(shorter.subrange(0, n) =~= data.subrange(0, n));
    }
}

impl DatabaseReturn {
    /// The text of the column called `column`, if the row has one.
    pub fn get(&self, column: &str) -> (r: Option<String>)
        ensures
            text_view(r) == lookup(self@, column@),
    {
        let mut i: usize = self.data.len();
        while i > 0
            invariant
                i <= self.data.len(),
                forall|k: int| i <= k < self.data.len() ==> self.data[k].0@ != column@,
            decreases i,
        {
            i -= 1;
            if same_text(self.data[i].0.as_str(), column) {
                proof {
                    lemma_columns_tail(self.data@, column@, i + 1);
                    let upto = self.data@.subrange(0, i + 1);
                    assert(upto.last() == self.data@[i as int]);
                }
                return Some(self.data[i].1.clone());
            }
        }
        proof {
            lemma_columns_tail(self.data@, column@, 0);
        }
        None
    }
}

/// A column's value as a driver hands it over.
#[derive(Debug, Clone, PartialEq)]
pub enum RawValue {
    Text(String),
    Bytes(Vec<u8>),
}

/// The mathematical value of a [`RawValue`].
pub enum RawValueView {
    Text(Seq<char>),
    Bytes(Seq<u8>),
}

impl View for RawValue {
    type V = RawValueView;

    open spec fn view(&self) -> RawValueView {
        match self {
            RawValue::Text(t) => RawValueView::Text(t@),
            RawValue::Bytes(b) => RawValueView::Bytes(b@),
        }
    }
}

/// A named column of a row.
#[derive(Debug, Clone, PartialEq)]
pub struct RawColumn {
    pub name: String,
    pub value: RawValue,
}

/// A row as a driver hands it over: its columns in their order.
#[derive(Debug, Clone, PartialEq)]
pub struct RawRow {
    pub columns: Vec<RawColumn>,
}

impl View for RawRow {
    type V = Seq<(Seq<char>, RawValueView)>;

    open spec fn view(&self) -> Seq<(Seq<char>, RawValueView)> {
        Seq::new(
            self.columns.len() as nat,
            |i: int| (self.columns[i].name@, self.columns[i].value@),
        )
    }
}

/// The text a raw value stands for: text as it is, bytes as the UTF-8 they
/// encode. `None` for bytes that are not UTF-8.
pub open spec fn text_of(value: RawValueView) -> Option<Seq<char>> {
    match value {
        RawValueView::Text(t) => Some(t),
        RawValueView::Bytes(b) => if vstd::utf8::valid_utf8(b) {
            Some(vstd::utf8::decode_utf8(b))
        } else {
            None
        },
    }
}

/// A row with every column as text, a later column overriding an earlier
/// one of the same name. `None` if a column holds bytes that are not UTF-8.
pub open spec fn project(row: Seq<(Seq<char>, RawValueView)>) -> Option<
    Map<Seq<char>, Seq<char>>,
>
    decreases row.len(),
{
    if row.len() == 0 {
        Some(Map::empty())
    } else {
        match (project(row.drop_last()), text_of(row.last().1)) {
            (Some(m), Some(t)) => Some(m.insert(row.last().0, t)),
            _ => None,
        }
    }
}

/// A row is not text if one of its prefixes is not.
proof fn lemma_project_prefix(row: Seq<(Seq<char>, RawValueView)>, k: int)
    requires
        0 <= k <= row.len(),
        project(row.subrange(0, k)) is None,
    ensures
        project(row) is None,
    decreases row.len() - k,
{
    if k == row.len() {
        assert(row.subrange(0, k) =~= row);
    } else {
        let longer = row.subrange(0, k + 1);
        assert(longer.drop_last() =~= row.subrange(0, k));
        lemma_project_prefix(row, k + 1);
    }
}

/// `std::str::Utf8Error`, what `std::str::from_utf8` reports for bytes that
/// are not UTF-8.
#[verifier::external_type_specification]
#[verifier::external_body]
pub struct ExUtf8Error(core::str::Utf8Error);

/// `std::str::from_utf8`: reads bytes as text. It succeeds on exactly the
/// byte sequences that are valid UTF-8, and the text it returns has these
/// bytes as its encoding.
pub assume_specification<'a>[ core::str::from_utf8 ](v: &'a [u8]) -> (r: Result<
    &'a str,
    core::str::Utf8Error,
>)
    ensures
        r is Ok <==> vstd::utf8::valid_utf8(v@),
        r matches Ok(s) ==> s.spec_bytes() == v@,
;

/// What the database answers to a statement.
#[derive(Debug, Clone, PartialEq)]
pub enum Reply {
    /// The one row asked for.
    Row(RawRow),
    /// No row matched where one was asked for.
    NoRow,
    /// The rows that matched, in order.
    Rows(Vec<RawRow>),
    /// The statement ran.
    Done,
    /// The statement could not be run, or the connection failed.
    Failed,
}

/// The mathematical value of a [`Reply`].
pub enum ReplyView {
    Row(Seq<(Seq<char>, RawValueView)>),
    NoRow,
    Rows(Seq<Seq<(Seq<char>, RawValueView)>>),
    Done,
    Failed,
}

impl View for Reply {
    type V = ReplyView;

    open spec fn view(&self) -> ReplyView {
        match self {
            Reply::Row(row) => ReplyView::Row(row@),
            Reply::NoRow => ReplyView::NoRow,
            Reply::Rows(rows) => ReplyView::Rows(Seq::new(rows.len() as nat, |i: int| rows[i]@)),
            Reply::Done => ReplyView::Done,
            Reply::Failed => ReplyView::Failed,
        }
    }
}

/// How an operation of a store goes on: it is finished, or the caller has to
/// run a statement and come back with the reply.
#[derive(Debug)]
pub enum Step<P, T> {
    /// Run the statement, then resume with the pending state and the reply.
    Ask(P, Statement),
    /// The operation is over.
    Done(T),
}

/// The mathematical value of a [`Step`].
pub enum StepView<P, T> {
    Ask(P, StatementView),
    Done(T),
}

/// What all stores share: the dialect of the database, the options it was
/// selected by, and the cache.
pub struct StarterDatabase {
    pub dialect: Dialect,
    pub options: DatabaseOpts,
    pub cachedb: CacheDB,
}

impl StarterDatabase {
    /// The base for the dialect that `options` select, with an empty cache.
    pub fn new(options: DatabaseOpts) -> (r: StarterDatabase)
        ensures
            r.dialect == options.spec_dialect(),
            r.options == options,
            r.cachedb@ == Map::<Seq<char>, Seq<char>>::empty(),
    {
        StarterDatabase { dialect: options.dialect(), options, cachedb: CacheDB::new() }
    }

    /// Turns a row into text, column by column: text stays, bytes are read
    /// as UTF-8. `None` if a column holds bytes that are not UTF-8.
    pub fn textify_row(&self, row: &RawRow) -> (r: Option<DatabaseReturn>)
        ensures
            match r {
                Some(out) => project(row@) == Some(out@),
                None => project(row@) is None,
            },
    {
        let mut out: Vec<(String, String)> = Vec::new();
        let mut i: usize = 0;
        while i < row.columns.len()
            invariant
                i <= row.columns.len(),
                project(row@.subrange(0, i as int)) == Some(columns_map(out@)),
            decreases row.columns.len() - i,
        {
            let column = &row.columns[i];
            let ghost next = row@.subrange(0, i + 1);
            proof {
                assert(next.drop_last() =~= row@.subrange(0, i as int));
                assert(next.last() == (column.name@, column.value@));
            }
            let text = match &column.value {
                RawValue::Text(t) => t.clone(),
                RawValue::Bytes(b) => match core::str::from_utf8(b.as_slice()) {
                    Ok(s) => {
                        proof {
                            vstd::utf8::encode_utf8_decode_utf8(s@);
                        }
                        String::from_str(s)
                    },
                    Err(_) => {
                        proof {
                            lemma_project_prefix(row@, i + 1);
                        }
                        return None;
                    },
                },
            };
            let ghost before = out@;
            out.push((column.name.clone(), text));
            proof {
                assert(out@.drop_last() =~= before);
            }
            i += 1;
        }
        assert(row@.subrange(0, row.columns.len() as int) =~= row@);
        Some(DatabaseReturn { data: out })
    }
}

} // verus!
