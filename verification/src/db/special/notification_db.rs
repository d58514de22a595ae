//! The notification store: notifications are log entries of the type
//! `notification`, found again by the name of the user in their content.
use vstd::prelude::*;
use vstd::string::*;
use crate::db::db::{DefaultReturn, Reply, ReplyView, StarterDatabase, Step, StepView};
use crate::db::special::auth_db::{
    cache_after_user, user_next, user_step_view, username_start, AuthDatabase, AuthError,
    FullUser, FullUserView, UserLookup, UserLookupView, UserMetadata,
};
use crate::db::special::log_db::{
    log_views, logs_of_reply, Log, LogDatabase, LogError, LogInsert, LogView,
};
use crate::db::sql::{Statement, StatementView};
use crate::json::{json_parse, json_quote, Json, JsonView};
use crate::text::{same_text, text_view};
use crate::utility::{random_id, unix_epoch_timestamp};

verus! {

/// A notification for a user.
#[derive(Debug, Default, Clone, PartialEq)]
pub struct Notification {
    /// The service the notification comes from.
    pub service: String,
    /// The name of the user who is notified.
    pub user: String,
    /// The text of the notification.
    pub content: String,
    /// Where the notification leads.
    pub address: String,
}

/// The mathematical value of a [`Notification`].
pub struct NotificationView {
    pub service: Seq<char>,
    pub user: Seq<char>,
    pub content: Seq<char>,
    pub address: Seq<char>,
}

impl View for Notification {
    type V = NotificationView;

    open spec fn view(&self) -> NotificationView {
        NotificationView {
            service: self.service@,
            user: self.user@,
            content: self.content@,
            address: self.address@,
        }
    }
}

/// Why reading notifications failed.
#[derive(Clone, Copy, Debug, PartialEq, Eq, Structural)]
pub enum NotificationError {
    /// A row could not be read as a log entry.
    ValueError,
    /// Nothing matches.
    NotFound,
    /// The database could not be asked.
    Other,
}

/// Why a notification was not created: the user could not be resolved, with
/// the identity store's reason, or the log store failed, with its reason.
#[derive(Clone, Copy, Debug, PartialEq, Eq, Structural)]
pub enum PushError {
    User(AuthError),
    Log(LogError),
}

/// The message that goes with an error.
pub open spec fn notification_error_message(e: NotificationError) -> Seq<char> {
    match e {
        NotificationError::ValueError => "One of the field values given is invalid."@,
        NotificationError::NotFound => "No asset with this selector could be found."@,
        NotificationError::Other => "An unspecified error has occured"@,
    }
}

impl NotificationError {
    /// The message that goes with the error.
    pub fn to_string(&self) -> (r: String)
        ensures
            r@ == notification_error_message(*self),
    {
        match self {
            NotificationError::ValueError => String::from_str(
                "One of the field values given is invalid.",
            ),
            NotificationError::NotFound => String::from_str(
                "No asset with this selector could be found.",
            ),
            NotificationError::Other => String::from_str("An unspecified error has occured"),
        }
    }

    /// The error as the envelope of a failed call: no success, the error's
    /// message, and the default of the payload's type as the payload.
    pub fn into_return<T: Default>(self) -> (r: DefaultReturn<T>)
        ensures
            !r.success,
            r.message@ == notification_error_message(self),
            call_ensures(T::default, (), r.payload),
    {
        DefaultReturn { success: false, message: self.to_string(), payload: T::default() }
    }
}

/// The notification store, on top of the identity store and the log store.
pub struct NotificationDatabase {
    pub auth: AuthDatabase,
    pub logs: LogDatabase,
}

/// The number of notifications on one page of a listing.
pub const PAGE_SIZE: u32 = 50;

/// What the content of a log entry has to contain to be a notification for
/// the user called `user`.
pub open spec fn user_needle(user: Seq<char>) -> Seq<char> {
    "\"user\":\""@ + user + "\""@
}

/// A notification written as JSON: one object, the members in the order
/// `service`, `user`, `content`, `address`, without spaces.
pub open spec fn notification_text(n: NotificationView) -> Option<Seq<char>> {
    match (
        json_quote(n.service),
        json_quote(n.user),
        json_quote(n.content),
        json_quote(n.address),
    ) {
        (Some(service), Some(user), Some(content), Some(address)) => Some(
            "{\"service\":"@ + service + ",\"user\":"@ + user + ",\"content\":"@ + content
                + ",\"address\":"@ + address + "}"@,
        ),
        _ => None,
    }
}

/// The notification that a JSON document stands for: an object with the
/// string members `service`, `user`, `content` and `address`.
pub open spec fn notification_of_json(j: JsonView) -> Option<NotificationView> {
    match (
        j.text_member("service"@),
        j.text_member("user"@),
        j.text_member("content"@),
        j.text_member("address"@),
    ) {
        (Some(service), Some(user), Some(content), Some(address)) => Some(
            NotificationView { service, user, content, address },
        ),
        _ => None,
    }
}

/// The notification that a JSON text stands for.
pub open spec fn notification_of_text(text: Seq<char>) -> Option<NotificationView> {
    match json_parse(text) {
        Some(j) => notification_of_json(j),
        None => None,
    }
}

/// The notification that a log entry holds: the one its content stands for,
/// if the entry is of the type `notification`.
pub open spec fn notification_of_log(l: LogView) -> Option<NotificationView> {
    if l.logtype == "notification"@ {
        notification_of_text(l.content)
    } else {
        None
    }
}

/// The statement that lists the notifications of a user: the log entries of
/// the type `notification` whose content names the user.
pub open spec fn notifications_statement(
    table: Seq<char>,
    user: Seq<char>,
    limit: u32,
    offset: i32,
) -> StatementView {
    StatementView::LogsByContent {
        table,
        logtype: "notification"@,
        needle: user_needle(user),
        limit,
        offset,
    }
}

/// The error of the notification store that stands for an error of the log
/// store.
pub open spec fn listing_error(e: LogError) -> NotificationError {
    match e {
        LogError::ValueError => NotificationError::ValueError,
        LogError::NotFound => NotificationError::NotFound,
        LogError::Other => NotificationError::Other,
    }
}

/// What the reply to a listing of notifications amounts to: the entries in
/// the order of the rows, newest first as the statement asked.
pub open spec fn notifications_of_reply(reply: ReplyView) -> Result<
    Seq<LogView>,
    NotificationError,
> {
    match logs_of_reply(reply) {
        Ok(logs) => Ok(logs),
        Err(e) => Err(listing_error(e)),
    }
}

/// What the reply to the question whether a user has a notification amounts
/// to: whether any row came back.
pub open spec fn has_notification_of_reply(reply: ReplyView) -> Result<bool, NotificationError> {
    match reply {
        ReplyView::Rows(rows) => Ok(rows.len() > 0),
        _ => Err(NotificationError::Other),
    }
}

/// The creation of a notification on its way.
#[derive(Debug)]
pub enum NotificationPush {
    /// The user is being looked up. The identifier and the timestamp of the
    /// entry to create are already drawn.
    User { lookup: UserLookup, props: Notification, id: String, timestamp: u128 },
    /// The user exists and the insert is running.
    Insert { insert: LogInsert },
}

/// The mathematical value of a [`NotificationPush`].
pub enum NotificationPushView {
    User { lookup: UserLookupView, props: NotificationView, id: Seq<char>, timestamp: u128 },
    Insert { id: Seq<char> },
}

impl View for NotificationPush {
    type V = NotificationPushView;

    open spec fn view(&self) -> NotificationPushView {
        match self {
            NotificationPush::User { lookup, props, id, timestamp } => NotificationPushView::User {
                lookup: lookup@,
                props: props@,
                id: id@,
                timestamp: *timestamp,
            },
            NotificationPush::Insert { insert } => NotificationPushView::Insert { id: insert.id@ },
        }
    }
}

/// The view of the outcome of a creation: the new entry's identifier.
pub open spec fn push_result_view(r: Result<String, PushError>) -> Result<Seq<char>, PushError> {
    match r {
        Ok(id) => Ok(id@),
        Err(e) => Err(e),
    }
}

/// The view of a step of a creation.
pub open spec fn push_step_view(
    step: Step<NotificationPush, Result<String, PushError>>,
) -> StepView<NotificationPushView, Result<Seq<char>, PushError>> {
    match step {
        Step::Ask(p, s) => StepView::Ask(p@, s@),
        Step::Done(r) => StepView::Done(push_result_view(r)),
    }
}

/// How a creation goes on after a step of the lookup of its user: a user
/// that resolved leads to the insert of the entry, a failed lookup ends the
/// creation with the lookup's error, and a lookup that asks goes on asking.
pub open spec fn push_after_user(
    logs_table: Seq<char>,
    step: StepView<UserLookupView, Result<FullUserView, AuthError>>,
    props: NotificationView,
    id: Seq<char>,
    timestamp: u128,
) -> StepView<NotificationPushView, Result<Seq<char>, PushError>> {
    match step {
        StepView::Ask(lookup, statement) => StepView::Ask(
            NotificationPushView::User { lookup, props, id, timestamp },
            statement,
        ),
        StepView::Done(Err(e)) => StepView::Done(Err(PushError::User(e))),
        StepView::Done(Ok(_)) => match notification_text(props) {
            Some(content) => StepView::Ask(
                NotificationPushView::Insert { id },
                StatementView::InsertLog {
                    table: logs_table,
                    id,
                    logtype: "notification"@,
                    timestamp,
                    content,
                },
            ),
            None => StepView::Done(Err(PushError::Log(LogError::ValueError))),
        },
    }
}

/// How a creation goes on when a reply arrives.
pub open spec fn push_next(
    users_table: Seq<char>,
    levels_table: Seq<char>,
    logs_table: Seq<char>,
    cache: Map<Seq<char>, Seq<char>>,
    pending: NotificationPushView,
    reply: ReplyView,
) -> StepView<NotificationPushView, Result<Seq<char>, PushError>> {
    match pending {
        NotificationPushView::User { lookup, props, id, timestamp } => push_after_user(
            logs_table,
            user_next(users_table, levels_table, cache, lookup, reply),
            props,
            id,
            timestamp,
        ),
        NotificationPushView::Insert { id } => match reply {
            ReplyView::Done => StepView::Done(Ok(id)),
            _ => StepView::Done(Err(PushError::Log(LogError::Other))),
        },
    }
}

/// The cache after a step of a creation: what the lookup of the user did to
/// it, and nothing else.
pub open spec fn cache_after_push(
    cache: Map<Seq<char>, Seq<char>>,
    pending: NotificationPushView,
    reply: ReplyView,
) -> Map<Seq<char>, Seq<char>> {
    match pending {
        NotificationPushView::User { lookup, .. } => cache_after_user(cache, lookup, reply),
        NotificationPushView::Insert { .. } => cache,
    }
}

impl Notification {
    /// Reads a notification from JSON text.
    pub fn from_json_text(text: &str) -> (r: Option<Notification>)
        ensures
            match r {
                Some(n) => notification_of_text(text@) == Some(n@),
                None => notification_of_text(text@) is None,
            },
    {
        let j = match Json::parse(text) {
            Some(j) => j,
            None => {
                return None;
            },
        };
        let service = match j.text_member("service") {
            Some(v) => v,
            None => {
                return None;
            },
        };
        let user = match j.text_member("user") {
            Some(v) => v,
            None => {
                return None;
            },
        };
        let content = match j.text_member("content") {
            Some(v) => v,
            None => {
                return None;
            },
        };
        let address = match j.text_member("address") {
            Some(v) => v,
            None => {
                return None;
            },
        };
        Some(Notification { service, user, content, address })
    }

    /// Reads the notification that a log entry holds. `None` for an entry
    /// of another type and for content that is no notification.
    pub fn from_log(entry: &Log) -> (r: Option<Notification>)
        ensures
            match r {
                Some(n) => notification_of_log(entry@) == Some(n@),
                None => notification_of_log(entry@) is None,
            },
    {
        if same_text(entry.logtype.as_str(), "notification") {
            Notification::from_json_text(entry.content.as_str())
        } else {
            None
        }
    }

    /// Writes the notification as JSON.
    pub fn to_json_text(&self) -> (r: Option<String>)
        ensures
            text_view(r) == notification_text(self@),
    {
        let service = match Json::quote(self.service.as_str()) {
            Some(q) => q,
            None => {
                return None;
            },
        };
        let user = match Json::quote(self.user.as_str()) {
            Some(q) => q,
            None => {
                return None;
            },
        };
        let content = match Json::quote(self.content.as_str()) {
            Some(q) => q,
            None => {
                return None;
            },
        };
        let address = match Json::quote(self.address.as_str()) {
            Some(q) => q,
            None => {
                return None;
            },
        };
        let mut out = String::from_str("{\"service\":");
        out.append(service.as_str());
        out.append(",\"user\":");
        out.append(user.as_str());
        out.append(",\"content\":");
        out.append(content.as_str());
        out.append(",\"address\":");
        out.append(address.as_str());
        out.append("}");
        Some(out)
    }
}

impl NotificationDatabase {
    /// The notification store on top of the two stores given.
    pub fn new(auth: AuthDatabase, logs: LogDatabase) -> (r: NotificationDatabase)
        ensures
            r.auth.options.table@ == auth.options.table@,
            r.auth.options.logs_table@ == auth.options.logs_table@,
            r.logs.options.table@ == logs.options.table@,
    {
        NotificationDatabase { auth, logs }
    }

    /// The statement that lists notifications of `user`.
    fn statement(&self, user: &str, limit: u32, offset: i32) -> (r: Statement)
        ensures
            r@ == notifications_statement(self.logs.options.table@, user@, limit, offset),
    {
        let mut needle = String::from_str("\"user\":\"");
        needle.append(user);
        needle.append("\"");
        self.logs.list_by_type_and_pattern(String::from_str("notification"), needle, limit, offset)
    }

    /// The statement that lists one page of the notifications of `user`,
    /// newest first: fifty entries after skipping `offset`, none skipped
    /// where no offset is given.
    pub fn get_user_notifications(&self, user: String, offset: Option<i32>) -> (r: Statement)
        ensures
            r@ == notifications_statement(
                self.logs.options.table@,
                user@,
                PAGE_SIZE,
                match offset {
                    Some(o) => o,
                    None => 0,
                },
            ),
    {
        let skip = match offset {
            Some(o) => o,
            None => 0,
        };
        self.statement(user.as_str(), PAGE_SIZE, skip)
    }

    /// Reads the reply to a listing of notifications.
    pub fn get_user_notifications_resume(&self, base: &StarterDatabase, reply: Reply) -> (r: Result<
        Vec<Log>,
        NotificationError,
    >)
        ensures
            match r {
                Ok(logs) => notifications_of_reply(reply@) == Ok::<
                    Seq<LogView>,
                    NotificationError,
                >(log_views(logs@)),
                Err(e) => notifications_of_reply(reply@) == Err::<Seq<LogView>, NotificationError>(
                    e,
                ),
            },
    {
        match self.logs.list_resume(base, reply) {
            Ok(logs) => Ok(logs),
            Err(LogError::ValueError) => Err(NotificationError::ValueError),
            Err(LogError::NotFound) => Err(NotificationError::NotFound),
            Err(LogError::Other) => Err(NotificationError::Other),
        }
    }

    /// The statement that asks whether `user` has a notification: the same
    /// listing, cut after one row.
    pub fn user_has_notification(&self, user: String) -> (r: Statement)
        ensures
            r@ == notifications_statement(self.logs.options.table@, user@, 1, 0),
    {
        self.statement(user.as_str(), 1, 0)
    }

    /// Reads the reply to the question whether a user has a notification.
    pub fn user_has_notification_resume(&self, reply: Reply) -> (r: Result<bool, NotificationError>)
        ensures
            r == has_notification_of_reply(reply@),
    {
        match reply {
            Reply::Rows(rows) => Ok(rows.len() > 0),
            _ => Err(NotificationError::Other),
        }
    }

    /// Goes on after a step of the lookup of the user.
    fn after_user(
        &self,
        step: Step<UserLookup, Result<FullUser<UserMetadata>, AuthError>>,
        props: Notification,
        id: String,
        timestamp: u128,
    ) -> (r: Step<NotificationPush, Result<String, PushError>>)
        ensures
            push_step_view(r) == push_after_user(
                self.logs.options.table@,
                user_step_view(step),
                props@,
                id@,
                timestamp,
            ),
    {
        match step {
            Step::Ask(lookup, statement) => Step::Ask(
                NotificationPush::User { lookup, props, id, timestamp },
                statement,
            ),
            Step::Done(Err(e)) => Step::Done(Err(PushError::User(e))),
            Step::Done(Ok(_)) => match props.to_json_text() {
                Some(content) => {
                    let (insert, statement) = self.logs.create_log_with(
                        id,
                        timestamp,
                        String::from_str("notification"),
                        content,
                    );
                    Step::Ask(NotificationPush::Insert { insert }, statement)
                },
                None => Step::Done(Err(PushError::Log(LogError::ValueError))),
            },
        }
    }

    /// Starts the creation of a notification, with a fresh random identifier
    /// and the clock's reading as the timestamp of its log entry.
    pub fn push_user_notification(&self, base: &StarterDatabase, props: Notification) -> (r: Step<
        NotificationPush,
        Result<String, PushError>,
    >)
        ensures
            exists|id: Seq<char>, timestamp: u128|
                id.len() == 64 && push_step_view(r) == push_after_user(
                    self.logs.options.table@,
                    username_start(
                        self.auth.options.table@,
                        self.auth.options.logs_table@,
                        base.cachedb@,
                        props.user@,
                    ),
                    props@,
                    id,
                    timestamp,
                ),
    {
        let id = random_id();
        let timestamp = unix_epoch_timestamp();
        self.push_user_notification_with(base, props, id, timestamp)
    }

    /// Starts the creation of a notification whose log entry gets the
    /// identifier and the timestamp given. The user named in the
    /// notification is looked up first; the entry is inserted only once the
    /// user resolved.
    pub fn push_user_notification_with(
        &self,
        base: &StarterDatabase,
        props: Notification,
        id: String,
        timestamp: u128,
    ) -> (r: Step<NotificationPush, Result<String, PushError>>)
        ensures
            push_step_view(r) == push_after_user(
                self.logs.options.table@,
                username_start(
                    self.auth.options.table@,
                    self.auth.options.logs_table@,
                    base.cachedb@,
                    props.user@,
                ),
                props@,
                id@,
                timestamp,
            ),
    {
        let step = self.auth.get_user_by_username(base, props.user.clone());
        self.after_user(step, props, id, timestamp)
    }

    /// Goes on with the creation of a notification when a reply arrives.
    pub fn push_user_notification_resume(
        &self,
        base: &mut StarterDatabase,
        pending: NotificationPush,
        reply: Reply,
    ) -> (r: Step<NotificationPush, Result<String, PushError>>)
        ensures
            push_step_view(r) == push_next(
                self.auth.options.table@,
                self.auth.options.logs_table@,
                self.logs.options.table@,
                old(base).cachedb@,
                pending@,
                reply@,
            ),
            final(base).cachedb@ == cache_after_push(old(base).cachedb@, pending@, reply@),
            final(base).dialect == old(base).dialect,
            final(base).options == old(base).options,
    {
        match pending {
            NotificationPush::User { lookup, props, id, timestamp } => {
                let step = self.auth.get_user_resume(base, lookup, reply);
                self.after_user(step, props, id, timestamp)
            },
            NotificationPush::Insert { insert } => match self.logs.create_log_resume(
                insert,
                reply,
            ) {
                Ok(id) => Step::Done(Ok(id)),
                Err(_) => Step::Done(Err(PushError::Log(LogError::Other))),
            },
        }
    }
}

} // verus!
