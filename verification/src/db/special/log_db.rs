//! The log store: a table of typed, timestamped entries with opaque
//! content, read through the cache.
use vstd::prelude::*;
use vstd::string::*;
use crate::db::db::{
    lookup, project, DatabaseReturn, DefaultReturn, RawValueView, Reply, ReplyView,
    StarterDatabase, Step, StepView,
};
use crate::db::sql::{Statement, StatementView};
use crate::json::{json_parse, json_quote, Json, JsonView};
use crate::text::{column_number, decimal, decimal_text, parse_column_number, text_view};
use crate::utility::{hash_text, is_uuid_v4_text, random_id, unix_epoch_timestamp};

verus! {

/// An entry of the log.
#[derive(Debug, Default, PartialEq, Clone)]
pub struct Log {
    pub id: String,
    pub logtype: String,
    pub timestamp: u128,
    pub content: String,
}

/// The mathematical value of a [`Log`].
pub struct LogView {
    pub id: Seq<char>,
    pub logtype: Seq<char>,
    pub timestamp: u128,
    pub content: Seq<char>,
}

impl View for Log {
    type V = LogView;

    open spec fn view(&self) -> LogView {
        LogView {
            id: self.id@,
            logtype: self.logtype@,
            timestamp: self.timestamp,
            content: self.content@,
        }
    }
}

/// The identifier of an entry, alone.
#[derive(Debug, Default, Clone, PartialEq)]
pub struct LogIdentifier {
    pub id: String,
}

/// Why an operation on the log failed.
#[derive(Clone, Copy, Debug, PartialEq, Eq, Structural)]
pub enum LogError {
    /// A row or a cached text could not be read as a log entry.
    ValueError,
    /// No entry has the identifier.
    NotFound,
    /// The database could not be asked.
    Other,
}

/// The message that goes with an error.
pub open spec fn log_error_message(e: LogError) -> Seq<char> {
    match e {
        LogError::ValueError => "One of the field values given is invalid."@,
        LogError::NotFound => "No asset with this selector could be found."@,
        LogError::Other => "An unspecified error has occured"@,
    }
}

impl LogError {
    /// The message that goes with the error.
    pub fn to_string(&self) -> (r: String)
        ensures
            r@ == log_error_message(*self),
    {
        match self {
            LogError::ValueError => String::from_str("One of the field values given is invalid."),
            LogError::NotFound => String::from_str("No asset with this selector could be found."),
            LogError::Other => String::from_str("An unspecified error has occured"),
        }
    }

    /// The error as the envelope of a failed call: no success, the error's
    /// message, and the default of the payload's type as the payload.
    pub fn into_return<T: Default>(self) -> (r: DefaultReturn<T>)
        ensures
            !r.success,
            r.message@ == log_error_message(self),
            call_ensures(T::default, (), r.payload),
    {
        DefaultReturn { success: false, message: self.to_string(), payload: T::default() }
    }
}

/// The table that holds the log.
#[derive(Clone)]
pub struct DatabaseOptions {
    pub table: String,
}

/// The log store.
pub struct LogDatabase {
    pub options: DatabaseOptions,
}

/// The key under which the entry with this identifier is cached.
pub open spec fn log_key(id: Seq<char>) -> Seq<char> {
    "log:"@ + id
}

/// The entry that a row of text columns stands for: the columns `id`,
/// `logtype`, `timestamp` and `content`, the timestamp a number.
pub open spec fn log_of_row(row: Map<Seq<char>, Seq<char>>) -> Option<LogView> {
    match (
        lookup(row, "id"@),
        lookup(row, "logtype"@),
        lookup(row, "timestamp"@),
        lookup(row, "content"@),
    ) {
        (Some(id), Some(logtype), Some(stamp), Some(content)) => match column_number(stamp) {
            Some(timestamp) => Some(LogView { id, logtype, timestamp, content }),
            None => None,
        },
        _ => None,
    }
}

/// The entry that a JSON document stands for: an object with the string
/// members `id`, `logtype` and `content` and the number `timestamp`.
pub open spec fn log_of_json(j: JsonView) -> Option<LogView> {
    match (
        j.text_member("id"@),
        j.text_member("logtype"@),
        j.unsigned_member("timestamp"@),
        j.text_member("content"@),
    ) {
        (Some(id), Some(logtype), Some(timestamp), Some(content)) => Some(
            LogView { id, logtype, timestamp, content },
        ),
        _ => None,
    }
}

/// The entry that a JSON text stands for.
pub open spec fn log_of_text(text: Seq<char>) -> Option<LogView> {
    match json_parse(text) {
        Some(j) => log_of_json(j),
        None => None,
    }
}

/// An entry written as JSON: one object, the members in the order `id`,
/// `logtype`, `timestamp`, `content`, without spaces.
pub open spec fn log_text(l: LogView) -> Option<Seq<char>> {
    match (json_quote(l.id), json_quote(l.logtype), json_quote(l.content)) {
        (Some(id), Some(logtype), Some(content)) => Some(
            "{\"id\":"@ + id + ",\"logtype\":"@ + logtype + ",\"timestamp\":"@ + decimal(
                l.timestamp as nat,
            ) + ",\"content\":"@ + content + "}"@,
        ),
        _ => None,
    }
}

/// The text under which an entry is cached: its JSON, provided that the
/// JSON reads back as the same entry.
pub open spec fn log_cache_text(l: LogView) -> Option<Seq<char>> {
    match log_text(l) {
        Some(t) => if log_of_text(t) == Some(l) {
            Some(t)
        } else {
            None
        },
        None => None,
    }
}

/// The entry that the cache holds for an identifier: `None` where the key is
/// not held and where its text is no entry.
pub open spec fn cached_log(cache: Map<Seq<char>, Seq<char>>, id: Seq<char>) -> Option<LogView> {
    match lookup(cache, log_key(id)) {
        Some(t) => log_of_text(t),
        None => None,
    }
}

/// The cache after an entry was read from the database under `id`.
pub open spec fn cache_with_log(
    cache: Map<Seq<char>, Seq<char>>,
    id: Seq<char>,
    l: LogView,
) -> Map<Seq<char>, Seq<char>> {
    match log_cache_text(l) {
        Some(t) => cache.insert(log_key(id), t),
        None => cache,
    }
}

/// What the reply to a lookup by identifier amounts to: the entry, or the
/// reason why there is none.
pub open spec fn log_of_reply(reply: ReplyView) -> Result<LogView, LogError> {
    match reply {
        ReplyView::Row(raw) => match project(raw) {
            Some(row) => match log_of_row(row) {
                Some(l) => Ok(l),
                None => Err(LogError::ValueError),
            },
            None => Err(LogError::ValueError),
        },
        ReplyView::NoRow => Err(LogError::NotFound),
        _ => Err(LogError::Other),
    }
}

/// The entries that the rows of a listing stand for, in their order;
/// `None` if one of the rows is no entry.
pub open spec fn logs_of_rows(rows: Seq<Seq<(Seq<char>, RawValueView)>>) -> Option<Seq<LogView>>
    decreases rows.len(),
{
    if rows.len() == 0 {
        Some(Seq::empty())
    } else {
        match (logs_of_rows(rows.drop_last()), log_of_reply(ReplyView::Row(rows.last()))) {
            (Some(head), Ok(l)) => Some(head.push(l)),
            _ => None,
        }
    }
}

/// What the reply to a listing amounts to.
pub open spec fn logs_of_reply(reply: ReplyView) -> Result<Seq<LogView>, LogError> {
    match reply {
        ReplyView::Rows(rows) => match logs_of_rows(rows) {
            Some(logs) => Ok(logs),
            None => Err(LogError::ValueError),
        },
        _ => Err(LogError::Other),
    }
}

/// The view of the outcome of a lookup.
pub open spec fn log_result_view(r: Result<Log, LogError>) -> Result<LogView, LogError> {
    match r {
        Ok(l) => Ok(l@),
        Err(e) => Err(e),
    }
}

/// The views of a vector of entries.
pub open spec fn log_views(logs: Seq<Log>) -> Seq<LogView> {
    Seq::new(logs.len(), |i: int| logs[i]@)
}

/// The view of the outcome of a listing.
pub open spec fn logs_result_view(r: Result<Vec<Log>, LogError>) -> Result<Seq<LogView>, LogError> {
    match r {
        Ok(logs) => Ok(log_views(logs@)),
        Err(e) => Err(e),
    }
}

/// A listing is no list of entries if one of its prefixes is not.
proof fn lemma_logs_of_rows_prefix(rows: Seq<Seq<(Seq<char>, RawValueView)>>, k: int)
    requires
        0 <= k <= rows.len(),
        logs_of_rows(rows.subrange(0, k)) is None,
    ensures
        logs_of_rows(rows) is None,
    decreases rows.len() - k,
{
    if k == rows.len() {
        assert(rows.subrange(0, k) =~= rows);
    } else {
        let longer = rows.subrange(0, k + 1);
        assert(longer.drop_last() =~= rows.subrange(0, k));
        lemma_logs_of_rows_prefix(rows, k + 1);
    }
}

impl Log {
    /// Whether two entries are the same in every field.
    pub fn same(&self, other: &Log) -> (r: bool)
        ensures
            r == (self@ == other@),
    {
        self.id == other.id && self.logtype == other.logtype && self.timestamp == other.timestamp
            && self.content == other.content
    }

    /// Reads an entry from a row of text columns.
    pub fn from_row(row: &DatabaseReturn) -> (r: Option<Log>)
        ensures
            match r {
                Some(l) => log_of_row(row@) == Some(l@),
                None => log_of_row(row@) is None,
            },
    {
        let id = match row.get("id") {
            Some(v) => v,
            None => {
                return None;
            },
        };
        let logtype = match row.get("logtype") {
            Some(v) => v,
            None => {
                return None;
            },
        };
        let stamp = match row.get("timestamp") {
            Some(v) => v,
            None => {
                return None;
            },
        };
        let content = match row.get("content") {
            Some(v) => v,
            None => {
                return None;
            },
        };
        match parse_column_number(stamp.as_str()) {
            Some(timestamp) => Some(Log { id, logtype, timestamp, content }),
            None => None,
        }
    }

    /// Reads an entry from a parsed JSON document.
    pub fn from_json(j: &Json) -> (r: Option<Log>)
        ensures
            match r {
                Some(l) => log_of_json(j@) == Some(l@),
                None => log_of_json(j@) is None,
            },
    {
        let id = match j.text_member("id") {
            Some(v) => v,
            None => {
                return None;
            },
        };
        let logtype = match j.text_member("logtype") {
            Some(v) => v,
            None => {
                return None;
            },
        };
        let timestamp = match j.unsigned_member("timestamp") {
            Some(v) => v,
            None => {
                return None;
            },
        };
        let content = match j.text_member("content") {
            Some(v) => v,
            None => {
                return None;
            },
        };
        Some(Log { id, logtype, timestamp, content })
    }

    /// Reads an entry from JSON text.
    pub fn from_json_text(text: &str) -> (r: Option<Log>)
        ensures
            match r {
                Some(l) => log_of_text(text@) == Some(l@),
                None => log_of_text(text@) is None,
            },
    {
        match Json::parse(text) {
            Some(j) => Log::from_json(&j),
            None => None,
        }
    }

    /// Writes the entry as JSON.
    pub fn to_json_text(&self) -> (r: Option<String>)
        ensures
            text_view(r) == log_text(self@),
    {
        let id = match Json::quote(self.id.as_str()) {
            Some(q) => q,
            None => {
                return None;
            },
        };
        let logtype = match Json::quote(self.logtype.as_str()) {
            Some(q) => q,
            None => {
                return None;
            },
        };
        let content = match Json::quote(self.content.as_str()) {
            Some(q) => q,
            None => {
                return None;
            },
        };
        let mut out = String::from_str("{\"id\":");
        out.append(id.as_str());
        out.append(",\"logtype\":");
        out.append(logtype.as_str());
        out.append(",\"timestamp\":");
        out.append(decimal_text(self.timestamp).as_str());
        out.append(",\"content\":");
        out.append(content.as_str());
        out.append("}");
        Some(out)
    }

    /// The text to cache for the entry: its JSON, checked to read back as the
    /// same entry. `None` where it does not, so that nothing is cached that
    /// a later read would not return as it is.
    pub fn cache_text(&self) -> (r: Option<String>)
        ensures
            text_view(r) == log_cache_text(self@),
    {
        match self.to_json_text() {
            Some(t) => match Log::from_json_text(t.as_str()) {
                Some(back) => if back.same(self) {
                    Some(t)
                } else {
                    None
                },
                None => None,
            },
            None => None,
        }
    }
}

/// A lookup by identifier that waits for the row.
#[derive(Debug)]
pub struct LogLookup {
    pub id: String,
}

/// An insert that waits to be acknowledged.
#[derive(Debug)]
pub struct LogInsert {
    pub id: String,
}

/// A change of an entry, an edit or a removal, on its way.
#[derive(Debug)]
pub enum LogChange {
    /// The entry is being looked up; `content` is the new content of an
    /// edit, `None` for a removal.
    Lookup { id: String, content: Option<String> },
    /// The entry exists and the statement that changes it is running.
    Run { id: String },
}

/// The mathematical value of a [`LogChange`].
pub enum LogChangeView {
    Lookup { id: Seq<char>, content: Option<Seq<char>> },
    Run { id: Seq<char> },
}

impl View for LogChange {
    type V = LogChangeView;

    open spec fn view(&self) -> LogChangeView {
        match self {
            LogChange::Lookup { id, content } => LogChangeView::Lookup {
                id: id@,
                content: text_view(*content),
            },
            LogChange::Run { id } => LogChangeView::Run { id: id@ },
        }
    }
}

/// The view of a step of a change.
pub open spec fn change_step_view(step: Step<LogChange, Result<(), LogError>>) -> StepView<
    LogChangeView,
    Result<(), LogError>,
> {
    match step {
        Step::Ask(p, s) => StepView::Ask(p@, s@),
        Step::Done(r) => StepView::Done(r),
    }
}

/// The view of a step of a lookup.
pub open spec fn lookup_step_view(step: Step<LogLookup, Result<Log, LogError>>) -> StepView<
    Seq<char>,
    Result<LogView, LogError>,
> {
    match step {
        Step::Ask(p, s) => StepView::Ask(p.id@, s@),
        Step::Done(r) => StepView::Done(log_result_view(r)),
    }
}

/// The statement that changes an entry that was found: an update with the
/// new content of an edit, a delete for a removal.
pub open spec fn change_statement(
    table: Seq<char>,
    id: Seq<char>,
    content: Option<Seq<char>>,
) -> StatementView {
    match content {
        Some(c) => StatementView::UpdateLog { table, id, content: c },
        None => StatementView::DeleteLog { table, id },
    }
}

/// How a lookup by identifier starts: with the entry from the cache, or
/// with the question to the database.
pub open spec fn lookup_start(
    table: Seq<char>,
    cache: Map<Seq<char>, Seq<char>>,
    id: Seq<char>,
) -> StepView<Seq<char>, Result<LogView, LogError>> {
    match cached_log(cache, id) {
        Some(l) => StepView::Done(Ok(l)),
        None => StepView::Ask(id, StatementView::LogById { table, id }),
    }
}

/// The cache after the reply to a lookup under `id`: an entry that was read
/// is cached, every other outcome leaves the cache as it was.
pub open spec fn cache_after_lookup(
    cache: Map<Seq<char>, Seq<char>>,
    id: Seq<char>,
    reply: ReplyView,
) -> Map<Seq<char>, Seq<char>> {
    match log_of_reply(reply) {
        Ok(l) => cache_with_log(cache, id, l),
        Err(_) => cache,
    }
}

/// How a change starts: an entry in the cache is proof enough that it
/// exists, otherwise the database is asked for it.
pub open spec fn change_start(
    table: Seq<char>,
    cache: Map<Seq<char>, Seq<char>>,
    id: Seq<char>,
    content: Option<Seq<char>>,
) -> StepView<LogChangeView, Result<(), LogError>> {
    match cached_log(cache, id) {
        Some(_) => StepView::Ask(LogChangeView::Run { id }, change_statement(table, id, content)),
        None => StepView::Ask(
            LogChangeView::Lookup { id, content },
            StatementView::LogById { table, id },
        ),
    }
}

/// How a change goes on when a reply arrives.
pub open spec fn change_next(
    table: Seq<char>,
    pending: LogChangeView,
    reply: ReplyView,
) -> StepView<LogChangeView, Result<(), LogError>> {
    match pending {
        LogChangeView::Lookup { id, content } => match log_of_reply(reply) {
            Ok(_) => StepView::Ask(LogChangeView::Run { id }, change_statement(table, id, content)),
            Err(e) => StepView::Done(Err(e)),
        },
        LogChangeView::Run { id } => match reply {
            ReplyView::Done => StepView::Done(Ok(())),
            _ => StepView::Done(Err(LogError::Other)),
        },
    }
}

/// The cache after a step of a change: the lookup caches what it read, and
/// a change that ran drops the entry's key. A statement that failed leaves
/// the cache as it was.
pub open spec fn cache_after_change(
    cache: Map<Seq<char>, Seq<char>>,
    pending: LogChangeView,
    reply: ReplyView,
) -> Map<Seq<char>, Seq<char>> {
    match pending {
        LogChangeView::Lookup { id, .. } => cache_after_lookup(cache, id, reply),
        LogChangeView::Run { id } => match reply {
            ReplyView::Done => cache.remove(log_key(id)),
            _ => cache,
        },
    }
}

/// The key under which the entry with this identifier is cached.
fn key_of(id: &str) -> (r: String)
    ensures
        r@ == log_key(id@),
{
    let mut key = String::from_str("log:");
    key.append(id);
    key
}

/// Reads the reply to a lookup by identifier.
fn read_reply(base: &StarterDatabase, reply: &Reply) -> (r: Result<Log, LogError>)
    ensures
        log_result_view(r) == log_of_reply(reply@),
{
    match reply {
        Reply::Row(raw) => match base.textify_row(raw) {
            Some(row) => match Log::from_row(&row) {
                Some(l) => Ok(l),
                None => Err(LogError::ValueError),
            },
            None => Err(LogError::ValueError),
        },
        Reply::NoRow => Err(LogError::NotFound),
        _ => Err(LogError::Other),
    }
}

impl LogDatabase {
    /// The log store on the table that `options` name.
    pub fn new(options: DatabaseOptions) -> (r: LogDatabase)
        ensures
            r.options.table@ == options.table@,
    {
        LogDatabase { options }
    }

    /// The entry that the cache holds for `id`, if it holds one that reads
    /// as an entry.
    fn cached(&self, base: &StarterDatabase, id: &str) -> (r: Option<Log>)
        ensures
            match r {
                Some(l) => cached_log(base.cachedb@, id@) == Some(l@),
                None => cached_log(base.cachedb@, id@) is None,
            },
    {
        match base.cachedb.get(key_of(id).as_str()) {
            Some(text) => Log::from_json_text(text.as_str()),
            None => None,
        }
    }

    /// Starts the lookup of an entry by its identifier. An entry that the
    /// cache holds is returned at once; otherwise the database is to be
    /// asked for the row.
    pub fn get_log_by_id(&self, base: &StarterDatabase, id: String) -> (r: Step<
        LogLookup,
        Result<Log, LogError>,
    >)
        ensures
            lookup_step_view(r) == lookup_start(self.options.table@, base.cachedb@, id@),
    {
        match self.cached(base, id.as_str()) {
            Some(l) => Step::Done(Ok(l)),
            None => {
                let statement = Statement::LogById {
                    table: self.options.table.clone(),
                    id: id.clone(),
                };
                Step::Ask(LogLookup { id }, statement)
            },
        }
    }

    /// Ends a lookup with the reply of the database: a row that reads as an
    /// entry is cached and returned; no row is `NotFound`, a row that is no
    /// entry `ValueError`, anything else `Other`.
    pub fn get_log_by_id_resume(
        &self,
        base: &mut StarterDatabase,
        pending: LogLookup,
        reply: Reply,
    ) -> (r: Result<Log, LogError>)
        ensures
            log_result_view(r) == log_of_reply(reply@),
            final(base).cachedb@ == cache_after_lookup(old(base).cachedb@, pending.id@, reply@),
            final(base).dialect == old(base).dialect,
            final(base).options == old(base).options,
    {
        match read_reply(base, &reply) {
            Ok(l) => {
                match l.cache_text() {
                    Some(text) => {
                        base.cachedb.set(key_of(pending.id.as_str()), text);
                    },
                    None => {},
                }
                Ok(l)
            },
            Err(e) => Err(e),
        }
    }

    /// Starts the creation of an entry with a fresh random identifier and
    /// the clock's reading as its timestamp. The cache is not touched.
    pub fn create_log(&self, logtype: String, content: String) -> (r: (LogInsert, Statement))
        ensures
            r.0.id@.len() == 64,
            exists|u: Seq<char>| is_uuid_v4_text(u) && r.0.id@ == hash_text(u),
            r.1@ matches StatementView::InsertLog { table, id, logtype: t, timestamp, content: c }
                && table == self.options.table@ && id == r.0.id@ && t == logtype@ && c
                == content@,
    {
        self.create_log_with(random_id(), unix_epoch_timestamp(), logtype, content)
    }

    /// Starts the creation of an entry with the identifier and the
    /// timestamp given.
    pub fn create_log_with(
        &self,
        id: String,
        timestamp: u128,
        logtype: String,
        content: String,
    ) -> (r: (LogInsert, Statement))
        ensures
            r.0.id@ == id@,
            r.1@ == (StatementView::InsertLog {
                table: self.options.table@,
                id: id@,
                logtype: logtype@,
                timestamp,
                content: content@,
            }),
    {
        let statement = Statement::InsertLog {
            table: self.options.table.clone(),
            id: id.clone(),
            logtype,
            timestamp,
            content,
        };
        (LogInsert { id }, statement)
    }

    /// Ends a creation: the new entry's identifier if the insert ran,
    /// `Other` if it did not.
    pub fn create_log_resume(&self, pending: LogInsert, reply: Reply) -> (r: Result<
        String,
        LogError,
    >)
        ensures
            match r {
                Ok(id) => reply@ is Done && id@ == pending.id@,
                Err(e) => !(reply@ is Done) && e == LogError::Other,
            },
    {
        match reply {
            Reply::Done => Ok(pending.id),
            _ => Err(LogError::Other),
        }
    }

    /// Starts a change of the entry `id`.
    fn change(&self, base: &StarterDatabase, id: String, content: Option<String>) -> (r: Step<
        LogChange,
        Result<(), LogError>,
    >)
        ensures
            change_step_view(r) == change_start(
                self.options.table@,
                base.cachedb@,
                id@,
                text_view(content),
            ),
    {
        match self.cached(base, id.as_str()) {
            Some(_) => {
                let statement = self.change_statement(id.clone(), content);
                Step::Ask(LogChange::Run { id }, statement)
            },
            None => {
                let statement = Statement::LogById {
                    table: self.options.table.clone(),
                    id: id.clone(),
                };
                Step::Ask(LogChange::Lookup { id, content }, statement)
            },
        }
    }

    /// The statement that changes an entry that was found.
    fn change_statement(&self, id: String, content: Option<String>) -> (r: Statement)
        ensures
            r@ == change_statement(self.options.table@, id@, text_view(content)),
    {
        match content {
            Some(c) => Statement::UpdateLog { table: self.options.table.clone(), id, content: c },
            None => Statement::DeleteLog { table: self.options.table.clone(), id },
        }
    }

    /// Starts an edit: the content of the entry `id` is to become
    /// `content`. The entry has to exist: if the cache does not hold it, the
    /// database is asked for it first.
    pub fn edit_log(&self, base: &StarterDatabase, id: String, content: String) -> (r: Step<
        LogChange,
        Result<(), LogError>,
    >)
        ensures
            change_step_view(r) == change_start(
                self.options.table@,
                base.cachedb@,
                id@,
                Some(content@),
            ),
    {
        self.change(base, id, Some(content))
    }

    /// Starts the removal of the entry `id`, which has to exist.
    pub fn delete_log(&self, base: &StarterDatabase, id: String) -> (r: Step<
        LogChange,
        Result<(), LogError>,
    >)
        ensures
            change_step_view(r) == change_start(self.options.table@, base.cachedb@, id@, None),
    {
        self.change(base, id, None)
    }

    /// Goes on with an edit or a removal when a reply arrives. An entry
    /// that does not exist ends it with `NotFound` before anything is
    /// changed; once the change ran, the entry's key leaves the cache.
    pub fn change_resume(
        &self,
        base: &mut StarterDatabase,
        pending: LogChange,
        reply: Reply,
    ) -> (r: Step<LogChange, Result<(), LogError>>)
        ensures
            change_step_view(r) == change_next(self.options.table@, pending@, reply@),
            final(base).cachedb@ == cache_after_change(old(base).cachedb@, pending@, reply@),
            final(base).dialect == old(base).dialect,
            final(base).options == old(base).options,
    {
        match pending {
            LogChange::Lookup { id, content } => {
                let found = self.get_log_by_id_resume(base, LogLookup { id: id.clone() }, reply);
                match found {
                    Ok(_) => {
                        let statement = self.change_statement(id.clone(), content);
                        Step::Ask(LogChange::Run { id }, statement)
                    },
                    Err(e) => Step::Done(Err(e)),
                }
            },
            LogChange::Run { id } => match reply {
                Reply::Done => {
                    base.cachedb.remove(key_of(id.as_str()).as_str());
                    Step::Done(Ok(()))
                },
                _ => Step::Done(Err(LogError::Other)),
            },
        }
    }

    /// The listing of the entries of one type whose content contains
    /// `substring`, newest first, at most `limit` of them after skipping
    /// `offset`.
    pub fn list_by_type_and_pattern(
        &self,
        logtype: String,
        substring: String,
        limit: u32,
        offset: i32,
    ) -> (r: Statement)
        ensures
            r@ == (StatementView::LogsByContent {
                table: self.options.table@,
                logtype: logtype@,
                needle: substring@,
                limit,
                offset,
            }),
    {
        Statement::LogsByContent {
            table: self.options.table.clone(),
            logtype,
            needle: substring,
            limit,
            offset,
        }
    }

    /// Reads the reply to a listing: the entries in the order of the rows.
    /// A row that is no entry makes the whole listing a `ValueError`.
    pub fn list_resume(&self, base: &StarterDatabase, reply: Reply) -> (r: Result<
        Vec<Log>,
        LogError,
    >)
        ensures
            logs_result_view(r) == logs_of_reply(reply@),
    {
        match reply {
            Reply::Rows(rows) => {
                let ghost all = Reply::Rows(rows)@->Rows_0;
                let mut out: Vec<Log> = Vec::new();
                let mut i: usize = 0;
                while i < rows.len()
                    invariant
                        i <= rows.len(),
                        all.len() == rows.len(),
                        reply@ == ReplyView::Rows(all),
                        forall|k: int| 0 <= k < rows.len() ==> all[k] == #[trigger] rows[k]@,
                        logs_of_rows(all.subrange(0, i as int)) == Some(log_views(out@)),
                    decreases rows.len() - i,
                {
                    let ghost next = all.subrange(0, i + 1);
                    proof {
                        assert(next.drop_last() =~= all.subrange(0, i as int));
                        assert(next.last() == rows[i as int]@);
                    }
                    let row = match base.textify_row(&rows[i]) {
                        Some(row) => row,
                        None => {
                            proof {
                                lemma_logs_of_rows_prefix(all, i + 1);
                            }
                            return Err(LogError::ValueError);
                        },
                    };
                    match Log::from_row(&row) {
                        Some(l) => {
                            let ghost before = out@;
                            out.push(l);
                            assert(log_views(out@) =~= log_views(before).push(l@));
                        },
                        None => {
                            proof {
                                lemma_logs_of_rows_prefix(all, i + 1);
                            }
                            return Err(LogError::ValueError);
                        },
                    }
                    i += 1;
                }
                assert(all.subrange(0, rows.len() as int) =~= all);
                Ok(out)
            },
            _ => Err(LogError::Other),
        }
    }
}

} // verus!
