//! The identity store: users found by their hashed identifier, by a
//! credential, by a secondary token or by name, each with the level of their
//! role.
use vstd::prelude::*;
use vstd::string::*;
use crate::db::db::{
    lookup, project, DatabaseReturn, DefaultReturn, Reply, ReplyView, StarterDatabase, Step,
    StepView,
};
use crate::db::special::log_db::{Log, LogView};
use crate::db::sql::{Statement, StatementView};
use crate::json::{
    json_parse, json_quote, json_quote_list, json_quote_optional, text_views, Json, JsonView,
};
use crate::text::{
    column_number, decimal, decimal_text, parse_column_number, same_text, signed_decimal,
    signed_text, text_view,
};
use crate::utility::{hash, hash_text};

verus! {

/// A user as the table of users holds it.
#[derive(Debug, Default, PartialEq, Clone)]
pub struct UserState<M> {
    pub username: String,
    /// The digest of the identifier the user logs in with; the identifier
    /// itself is never stored.
    pub id_hashed: String,
    pub role: String,
    pub timestamp: u128,
    pub metadata: M,
}

/// What a role may do.
#[derive(Debug, Default, Clone, PartialEq)]
pub struct RoleLevel {
    /// 0 is the level of a plain member.
    pub elevation: i32,
    pub name: String,
    pub permissions: Vec<String>,
}

/// A user together with the level of the user's role.
#[derive(Debug, Default, Clone, PartialEq)]
pub struct FullUser<M> {
    pub user: UserState<M>,
    pub level: RoleLevel,
}

/// A level together with the identifier of the log entry that defines it.
#[derive(Debug, Clone, PartialEq)]
pub struct RoleLevelLog {
    pub id: String,
    pub level: RoleLevel,
}

/// What a user's metadata column holds.
#[derive(Debug, Default, Clone, PartialEq)]
pub struct UserMetadata {
    pub about: String,
    pub avatar_url: Option<String>,
    /// The digest of a second credential the user may log in with.
    pub secondary_token: Option<String>,
    pub nickname: Option<String>,
}

/// The mathematical value of a [`UserMetadata`].
pub struct UserMetadataView {
    pub about: Seq<char>,
    pub avatar_url: Option<Seq<char>>,
    pub secondary_token: Option<Seq<char>>,
    pub nickname: Option<Seq<char>>,
}

/// The mathematical value of a [`UserState`] with [`UserMetadata`].
pub struct UserView {
    pub username: Seq<char>,
    pub id_hashed: Seq<char>,
    pub role: Seq<char>,
    pub timestamp: u128,
    pub metadata: UserMetadataView,
}

/// The mathematical value of a [`RoleLevel`].
pub struct RoleLevelView {
    pub elevation: i32,
    pub name: Seq<char>,
    pub permissions: Seq<Seq<char>>,
}

/// The mathematical value of a [`RoleLevelLog`].
pub struct RoleLevelLogView {
    pub id: Seq<char>,
    pub level: RoleLevelView,
}

/// The mathematical value of a [`FullUser`] with [`UserMetadata`].
pub struct FullUserView {
    pub user: UserView,
    pub level: RoleLevelView,
}

impl View for UserMetadata {
    type V = UserMetadataView;

    open spec fn view(&self) -> UserMetadataView {
        UserMetadataView {
            about: self.about@,
            avatar_url: text_view(self.avatar_url),
            secondary_token: text_view(self.secondary_token),
            nickname: text_view(self.nickname),
        }
    }
}

impl View for UserState<UserMetadata> {
    type V = UserView;

    open spec fn view(&self) -> UserView {
        UserView {
            username: self.username@,
            id_hashed: self.id_hashed@,
            role: self.role@,
            timestamp: self.timestamp,
            metadata: self.metadata@,
        }
    }
}

impl View for RoleLevel {
    type V = RoleLevelView;

    open spec fn view(&self) -> RoleLevelView {
        RoleLevelView {
            elevation: self.elevation,
            name: self.name@,
            permissions: text_views(self.permissions@),
        }
    }
}

impl View for RoleLevelLog {
    type V = RoleLevelLogView;

    open spec fn view(&self) -> RoleLevelLogView {
        RoleLevelLogView { id: self.id@, level: self.level@ }
    }
}

impl View for FullUser<UserMetadata> {
    type V = FullUserView;

    open spec fn view(&self) -> FullUserView {
        FullUserView { user: self.user@, level: self.level@ }
    }
}

/// The level of a role that no log entry defines: a plain member without
/// permissions, and no identifier.
pub open spec fn default_level_log() -> RoleLevelLogView {
    RoleLevelLogView {
        id: Seq::empty(),
        level: RoleLevelView { elevation: 0, name: "member"@, permissions: Seq::empty() },
    }
}

impl Default for RoleLevelLog {
    fn default() -> (r: RoleLevelLog)
        ensures
            r@ == default_level_log(),
    {
        let r = RoleLevelLog {
            id: String::new(),
            level: RoleLevel {
                name: String::from_str("member"),
                elevation: 0,
                permissions: Vec::new(),
            },
        };
        assert(r.level@.permissions =~= Seq::empty());
        r
    }
}

/// Why a lookup in the identity store failed.
#[derive(Clone, Copy, Debug, PartialEq, Eq, Structural)]
pub enum AuthError {
    /// The user's row could not be read: a column is missing or malformed.
    ValueError,
    /// No user matches.
    NotFound,
    /// The user exists and is banned.
    Banned,
    /// The database could not be asked.
    Other,
}

/// The message that goes with an error.
pub open spec fn auth_error_message(e: AuthError) -> Seq<char> {
    match e {
        AuthError::ValueError => "One of the field values given is invalid."@,
        AuthError::NotFound => "User could not be found."@,
        AuthError::Banned => "User is banned."@,
        AuthError::Other => "An unspecified error has occured."@,
    }
}

impl AuthError {
    /// The message that goes with the error.
    pub fn to_string(&self) -> (r: String)
        ensures
            r@ == auth_error_message(*self),
    {
        match self {
            AuthError::ValueError => String::from_str("One of the field values given is invalid."),
            AuthError::NotFound => String::from_str("User could not be found."),
            AuthError::Banned => String::from_str("User is banned."),
            AuthError::Other => String::from_str("An unspecified error has occured."),
        }
    }

    /// The error as the envelope of a failed call: no success, the error's
    /// message, and the default of the payload's type as the payload.
    pub fn into_return<T: Default>(self) -> (r: DefaultReturn<T>)
        ensures
            !r.success,
            r.message@ == auth_error_message(self),
            call_ensures(T::default, (), r.payload),
    {
        DefaultReturn { success: false, message: self.to_string(), payload: T::default() }
    }
}

/// The tables the identity store reads: the users, and the log that holds
/// the definitions of the levels.
#[derive(Clone)]
pub struct DatabaseOptions {
    pub table: String,
    pub logs_table: String,
}

/// The identity store.
pub struct AuthDatabase {
    pub options: DatabaseOptions,
}

/// The metadata that a JSON document stands for: an object with the string
/// member `about`, and `avatar_url`, `secondary_token` and `nickname` each a
/// string, `null` or missing.
pub open spec fn metadata_of_json(j: JsonView) -> Option<UserMetadataView> {
    match (
        j.text_member("about"@),
        j.optional_text_member("avatar_url"@),
        j.optional_text_member("secondary_token"@),
        j.optional_text_member("nickname"@),
    ) {
        (Some(about), Some(avatar_url), Some(secondary_token), Some(nickname)) => Some(
            UserMetadataView { about, avatar_url, secondary_token, nickname },
        ),
        _ => None,
    }
}

/// The metadata that a JSON text stands for.
pub open spec fn metadata_of_text(text: Seq<char>) -> Option<UserMetadataView> {
    match json_parse(text) {
        Some(j) => metadata_of_json(j),
        None => None,
    }
}

/// Metadata written as JSON.
pub open spec fn metadata_text(m: UserMetadataView) -> Option<Seq<char>> {
    match (
        json_quote(m.about),
        json_quote_optional(m.avatar_url),
        json_quote_optional(m.secondary_token),
        json_quote_optional(m.nickname),
    ) {
        (Some(about), Some(avatar_url), Some(secondary_token), Some(nickname)) => Some(
            "{\"about\":"@ + about + ",\"avatar_url\":"@ + avatar_url + ",\"secondary_token\":"@
                + secondary_token + ",\"nickname\":"@ + nickname + "}"@,
        ),
        _ => None,
    }
}

/// The user that a JSON document stands for: an object with the string
/// members `username`, `id_hashed` and `role`, the number `timestamp` and the
/// object `metadata`.
pub open spec fn user_of_json(j: JsonView) -> Option<UserView> {
    match (
        j.text_member("username"@),
        j.text_member("id_hashed"@),
        j.text_member("role"@),
        j.unsigned_member("timestamp"@),
        j.member("metadata"@),
    ) {
        (Some(username), Some(id_hashed), Some(role), Some(timestamp), Some(m)) => {
            match metadata_of_json(m) {
                Some(metadata) => Some(UserView { username, id_hashed, role, timestamp, metadata }),
                None => None,
            }
        },
        _ => None,
    }
}

/// The user that a JSON text stands for.
pub open spec fn user_of_text(text: Seq<char>) -> Option<UserView> {
    match json_parse(text) {
        Some(j) => user_of_json(j),
        None => None,
    }
}

/// A user written as JSON.
pub open spec fn user_text(u: UserView) -> Option<Seq<char>> {
    match (
        json_quote(u.username),
        json_quote(u.id_hashed),
        json_quote(u.role),
        metadata_text(u.metadata),
    ) {
        (Some(username), Some(id_hashed), Some(role), Some(metadata)) => Some(
            "{\"username\":"@ + username + ",\"id_hashed\":"@ + id_hashed + ",\"role\":"@ + role
                + ",\"timestamp\":"@ + decimal(u.timestamp as nat) + ",\"metadata\":"@ + metadata
                + "}"@,
        ),
        _ => None,
    }
}

/// The text under which a user is cached: the user's JSON, provided that it
/// reads back as the same user.
pub open spec fn user_cache_text(u: UserView) -> Option<Seq<char>> {
    match user_text(u) {
        Some(t) => if user_of_text(t) == Some(u) {
            Some(t)
        } else {
            None
        },
        None => None,
    }
}

/// The user that a row of text columns stands for: the columns `username`,
/// `id_hashed`, `role`, `timestamp` and `metadata`, the timestamp a number,
/// the metadata JSON.
pub open spec fn user_of_row(row: Map<Seq<char>, Seq<char>>) -> Option<UserView> {
    match (
        lookup(row, "username"@),
        lookup(row, "id_hashed"@),
        lookup(row, "role"@),
        lookup(row, "timestamp"@),
        lookup(row, "metadata"@),
    ) {
        (Some(username), Some(id_hashed), Some(role), Some(stamp), Some(meta)) => match (
            column_number(stamp),
            metadata_of_text(meta),
        ) {
            (Some(timestamp), Some(metadata)) => Some(
                UserView { username, id_hashed, role, timestamp, metadata },
            ),
            _ => None,
        },
        _ => None,
    }
}

/// The level that a JSON document stands for: an object with the number
/// `elevation`, the string `name` and the list of strings `permissions`.
pub open spec fn level_of_json(j: JsonView) -> Option<RoleLevelView> {
    match (
        j.signed_member("elevation"@),
        j.text_member("name"@),
        j.text_list_member("permissions"@),
    ) {
        (Some(elevation), Some(name), Some(permissions)) => Some(
            RoleLevelView { elevation, name, permissions },
        ),
        _ => None,
    }
}

/// The level that a JSON text stands for.
pub open spec fn level_of_text(text: Seq<char>) -> Option<RoleLevelView> {
    match json_parse(text) {
        Some(j) => level_of_json(j),
        None => None,
    }
}

/// The level that a log entry defines: the one its content stands for, if
/// the entry is of the type `level`.
pub open spec fn level_of_log(l: LogView) -> Option<RoleLevelLogView> {
    if l.logtype == "level"@ {
        match level_of_text(l.content) {
            Some(level) => Some(RoleLevelLogView { id: l.id, level }),
            None => None,
        }
    } else {
        None
    }
}

/// A level written as JSON.
pub open spec fn level_text(l: RoleLevelView) -> Option<Seq<char>> {
    match (json_quote(l.name), json_quote_list(l.permissions)) {
        (Some(name), Some(permissions)) => Some(
            "{\"elevation\":"@ + signed_decimal(l.elevation as int) + ",\"name\":"@ + name
                + ",\"permissions\":"@ + permissions + "}"@,
        ),
        _ => None,
    }
}

/// The level and its entry's identifier that a JSON document stands for: an
/// object with the string `id` and the object `level`.
pub open spec fn level_log_of_json(j: JsonView) -> Option<RoleLevelLogView> {
    match (j.text_member("id"@), j.member("level"@)) {
        (Some(id), Some(l)) => match level_of_json(l) {
            Some(level) => Some(RoleLevelLogView { id, level }),
            None => None,
        },
        _ => None,
    }
}

/// The level and its entry's identifier that a JSON text stands for.
pub open spec fn level_log_of_text(text: Seq<char>) -> Option<RoleLevelLogView> {
    match json_parse(text) {
        Some(j) => level_log_of_json(j),
        None => None,
    }
}

/// A level and its entry's identifier written as JSON.
pub open spec fn level_log_text(l: RoleLevelLogView) -> Option<Seq<char>> {
    match (json_quote(l.id), level_text(l.level)) {
        (Some(id), Some(level)) => Some("{\"id\":"@ + id + ",\"level\":"@ + level + "}"@),
        _ => None,
    }
}

/// The text under which a level is cached: its JSON, provided that it reads
/// back as the same level.
pub open spec fn level_cache_text(l: RoleLevelLogView) -> Option<Seq<char>> {
    match level_log_text(l) {
        Some(t) => if level_log_of_text(t) == Some(l) {
            Some(t)
        } else {
            None
        },
        None => None,
    }
}

/// Whether two optional texts are the same.
fn same_optional_text(a: &Option<String>, b: &Option<String>) -> (r: bool)
    ensures
        r == (text_view(*a) == text_view(*b)),
{
    match (a, b) {
        (Some(x), Some(y)) => same_text(x.as_str(), y.as_str()),
        (None, None) => true,
        _ => false,
    }
}

/// Whether two lists of texts are the same.
fn same_texts(a: &Vec<String>, b: &Vec<String>) -> (r: bool)
    ensures
        r == (text_views(a@) == text_views(b@)),
{
    if a.len() != b.len() {
        assert(text_views(a@).len() != text_views(b@).len());
        return false;
    }
    let mut i: usize = 0;
    while i < a.len()
        invariant
            i <= a.len(),
            a.len() == b.len(),
            forall|k: int| 0 <= k < i ==> a[k]@ == b[k]@,
        decreases a.len() - i,
    {
        if !same_text(a[i].as_str(), b[i].as_str()) {
            assert(text_views(a@)[i as int] != text_views(b@)[i as int]);
            return false;
        }
        i += 1;
    }
    assert(text_views(a@) =~= text_views(b@));
    true
}

impl UserMetadata {
    /// Whether two metadata are the same in every field.
    pub fn same(&self, other: &UserMetadata) -> (r: bool)
        ensures
            r == (self@ == other@),
    {
        same_text(self.about.as_str(), other.about.as_str()) && same_optional_text(
            &self.avatar_url,
            &other.avatar_url,
        ) && same_optional_text(&self.secondary_token, &other.secondary_token)
            && same_optional_text(&self.nickname, &other.nickname)
    }

    /// Reads metadata from a parsed JSON document.
    pub fn from_json(j: &Json) -> (r: Option<UserMetadata>)
        ensures
            match r {
                Some(m) => metadata_of_json(j@) == Some(m@),
                None => metadata_of_json(j@) is None,
            },
    {
        let about = match j.text_member("about") {
            Some(v) => v,
            None => {
                return None;
            },
        };
        let avatar_url = match j.optional_text_member("avatar_url") {
            Some(v) => v,
            None => {
                return None;
            },
        };
        let secondary_token = match j.optional_text_member("secondary_token") {
            Some(v) => v,
            None => {
                return None;
            },
        };
        let nickname = match j.optional_text_member("nickname") {
            Some(v) => v,
            None => {
                return None;
            },
        };
        Some(UserMetadata { about, avatar_url, secondary_token, nickname })
    }

    /// Reads metadata from JSON text.
    pub fn from_json_text(text: &str) -> (r: Option<UserMetadata>)
        ensures
            match r {
                Some(m) => metadata_of_text(text@) == Some(m@),
                None => metadata_of_text(text@) is None,
            },
    {
        match Json::parse(text) {
            Some(j) => UserMetadata::from_json(&j),
            None => None,
        }
    }

    /// Writes the metadata as JSON.
    pub fn to_json_text(&self) -> (r: Option<String>)
        ensures
            text_view(r) == metadata_text(self@),
    {
        let about = match Json::quote(self.about.as_str()) {
            Some(q) => q,
            None => {
                return None;
            },
        };
        let avatar_url = match Json::quote_optional(&self.avatar_url) {
            Some(q) => q,
            None => {
                return None;
            },
        };
        let secondary_token = match Json::quote_optional(&self.secondary_token) {
            Some(q) => q,
            None => {
                return None;
            },
        };
        let nickname = match Json::quote_optional(&self.nickname) {
            Some(q) => q,
            None => {
                return None;
            },
        };
        let mut out = String::from_str("{\"about\":");
        out.append(about.as_str());
        out.append(",\"avatar_url\":");
        out.append(avatar_url.as_str());
        out.append(",\"secondary_token\":");
        out.append(secondary_token.as_str());
        out.append(",\"nickname\":");
        out.append(nickname.as_str());
        out.append("}");
        Some(out)
    }
}

impl UserState<UserMetadata> {
    /// Whether two users are the same in every field.
    pub fn same(&self, other: &UserState<UserMetadata>) -> (r: bool)
        ensures
            r == (self@ == other@),
    {
        same_text(self.username.as_str(), other.username.as_str()) && same_text(
            self.id_hashed.as_str(),
            other.id_hashed.as_str(),
        ) && same_text(self.role.as_str(), other.role.as_str()) && self.timestamp
            == other.timestamp && self.metadata.same(&other.metadata)
    }

    /// Reads a user from a row of text columns.
    pub fn from_row(row: &DatabaseReturn) -> (r: Option<UserState<UserMetadata>>)
        ensures
            match r {
                Some(u) => user_of_row(row@) == Some(u@),
                None => user_of_row(row@) is None,
            },
    {
        let username = match row.get("username") {
            Some(v) => v,
            None => {
                return None;
            },
        };
        let id_hashed = match row.get("id_hashed") {
            Some(v) => v,
            None => {
                return None;
            },
        };
        let role = match row.get("role") {
            Some(v) => v,
            None => {
                return None;
            },
        };
        let stamp = match row.get("timestamp") {
            Some(v) => v,
            None => {
                return None;
            },
        };
        let meta = match row.get("metadata") {
            Some(v) => v,
            None => {
                return None;
            },
        };
        let timestamp = match parse_column_number(stamp.as_str()) {
            Some(v) => v,
            None => {
                return None;
            },
        };
        match UserMetadata::from_json_text(meta.as_str()) {
            Some(metadata) => Some(UserState { username, id_hashed, role, timestamp, metadata }),
            None => None,
        }
    }

    /// Reads a user from a parsed JSON document.
    pub fn from_json(j: &Json) -> (r: Option<UserState<UserMetadata>>)
        ensures
            match r {
                Some(u) => user_of_json(j@) == Some(u@),
                None => user_of_json(j@) is None,
            },
    {
        let username = match j.text_member("username") {
            Some(v) => v,
            None => {
                return None;
            },
        };
        let id_hashed = match j.text_member("id_hashed") {
            Some(v) => v,
            None => {
                return None;
            },
        };
        let role = match j.text_member("role") {
            Some(v) => v,
            None => {
                return None;
            },
        };
        let timestamp = match j.unsigned_member("timestamp") {
            Some(v) => v,
            None => {
                return None;
            },
        };
        let m = match j.member("metadata") {
            Some(v) => v,
            None => {
                return None;
            },
        };
        match UserMetadata::from_json(m) {
            Some(metadata) => Some(UserState { username, id_hashed, role, timestamp, metadata }),
            None => None,
        }
    }

    /// Reads a user from JSON text.
    pub fn from_json_text(text: &str) -> (r: Option<UserState<UserMetadata>>)
        ensures
            match r {
                Some(u) => user_of_text(text@) == Some(u@),
                None => user_of_text(text@) is None,
            },
    {
        match Json::parse(text) {
            Some(j) => UserState::from_json(&j),
            None => None,
        }
    }

    /// Writes the user as JSON.
    pub fn to_json_text(&self) -> (r: Option<String>)
        ensures
            text_view(r) == user_text(self@),
    {
        let username = match Json::quote(self.username.as_str()) {
            Some(q) => q,
            None => {
                return None;
            },
        };
        let id_hashed = match Json::quote(self.id_hashed.as_str()) {
            Some(q) => q,
            None => {
                return None;
            },
        };
        let role = match Json::quote(self.role.as_str()) {
            Some(q) => q,
            None => {
                return None;
            },
        };
        let metadata = match self.metadata.to_json_text() {
            Some(q) => q,
            None => {
                return None;
            },
        };
        let mut out = String::from_str("{\"username\":");
        out.append(username.as_str());
        out.append(",\"id_hashed\":");
        out.append(id_hashed.as_str());
        out.append(",\"role\":");
        out.append(role.as_str());
        out.append(",\"timestamp\":");
        out.append(decimal_text(self.timestamp).as_str());
        out.append(",\"metadata\":");
        out.append(metadata.as_str());
        out.append("}");
        Some(out)
    }

    /// The text to cache for the user: the user's JSON, checked to read back
    /// as the same user.
    pub fn cache_text(&self) -> (r: Option<String>)
        ensures
            text_view(r) == user_cache_text(self@),
    {
        match self.to_json_text() {
            Some(t) => match UserState::from_json_text(t.as_str()) {
                Some(back) => if back.same(self) {
                    Some(t)
                } else {
                    None
                },
                None => None,
            },
            None => None,
        }
    }
}

impl RoleLevel {
    /// Whether two levels are the same in every field.
    pub fn same(&self, other: &RoleLevel) -> (r: bool)
        ensures
            r == (self@ == other@),
    {
        self.elevation == other.elevation && same_text(self.name.as_str(), other.name.as_str())
            && same_texts(&self.permissions, &other.permissions)
    }

    /// Reads a level from a parsed JSON document.
    pub fn from_json(j: &Json) -> (r: Option<RoleLevel>)
        ensures
            match r {
                Some(l) => level_of_json(j@) == Some(l@),
                None => level_of_json(j@) is None,
            },
    {
        let elevation = match j.signed_member("elevation") {
            Some(v) => v,
            None => {
                return None;
            },
        };
        let name = match j.text_member("name") {
            Some(v) => v,
            None => {
                return None;
            },
        };
        match j.text_list_member("permissions") {
            Some(permissions) => Some(RoleLevel { elevation, name, permissions }),
            None => None,
        }
    }

    /// Reads a level from JSON text.
    pub fn from_json_text(text: &str) -> (r: Option<RoleLevel>)
        ensures
            match r {
                Some(l) => level_of_text(text@) == Some(l@),
                None => level_of_text(text@) is None,
            },
    {
        match Json::parse(text) {
            Some(j) => RoleLevel::from_json(&j),
            None => None,
        }
    }

    /// Writes the level as JSON.
    pub fn to_json_text(&self) -> (r: Option<String>)
        ensures
            text_view(r) == level_text(self@),
    {
        let name = match Json::quote(self.name.as_str()) {
            Some(q) => q,
            None => {
                return None;
            },
        };
        let permissions = match Json::quote_list(&self.permissions) {
            Some(q) => q,
            None => {
                return None;
            },
        };
        let mut out = String::from_str("{\"elevation\":");
        out.append(signed_text(self.elevation).as_str());
        out.append(",\"name\":");
        out.append(name.as_str());
        out.append(",\"permissions\":");
        out.append(permissions.as_str());
        out.append("}");
        Some(out)
    }
}

impl RoleLevelLog {
    /// Reads the level that a log entry defines. `None` for an entry of
    /// another type and for content that is no level.
    pub fn from_log(entry: &Log) -> (r: Option<RoleLevelLog>)
        ensures
            match r {
                Some(l) => level_of_log(entry@) == Some(l@),
                None => level_of_log(entry@) is None,
            },
    {
        if same_text(entry.logtype.as_str(), "level") {
            match RoleLevel::from_json_text(entry.content.as_str()) {
                Some(level) => Some(RoleLevelLog { id: entry.id.clone(), level }),
                None => None,
            }
        } else {
            None
        }
    }

    /// Whether two levels and their identifiers are the same.
    pub fn same(&self, other: &RoleLevelLog) -> (r: bool)
        ensures
            r == (self@ == other@),
    {
        same_text(self.id.as_str(), other.id.as_str()) && self.level.same(&other.level)
    }

    /// Reads a level and its identifier from JSON text.
    pub fn from_json_text(text: &str) -> (r: Option<RoleLevelLog>)
        ensures
            match r {
                Some(l) => level_log_of_text(text@) == Some(l@),
                None => level_log_of_text(text@) is None,
            },
    {
        let j = match Json::parse(text) {
            Some(j) => j,
            None => {
                return None;
            },
        };
        let id = match j.text_member("id") {
            Some(v) => v,
            None => {
                return None;
            },
        };
        let l = match j.member("level") {
            Some(v) => v,
            None => {
                return None;
            },
        };
        match RoleLevel::from_json(l) {
            Some(level) => Some(RoleLevelLog { id, level }),
            None => None,
        }
    }

    /// Writes the level and its identifier as JSON.
    pub fn to_json_text(&self) -> (r: Option<String>)
        ensures
            text_view(r) == level_log_text(self@),
    {
        let id = match Json::quote(self.id.as_str()) {
            Some(q) => q,
            None => {
                return None;
            },
        };
        let level = match self.level.to_json_text() {
            Some(q) => q,
            None => {
                return None;
            },
        };
        let mut out = String::from_str("{\"id\":");
        out.append(id.as_str());
        out.append(",\"level\":");
        out.append(level.as_str());
        out.append("}");
        Some(out)
    }

    /// The text to cache for the level: its JSON, checked to read back as
    /// the same level.
    pub fn cache_text(&self) -> (r: Option<String>)
        ensures
            text_view(r) == level_cache_text(self@),
    {
        match self.to_json_text() {
            Some(t) => match RoleLevelLog::from_json_text(t.as_str()) {
                Some(back) => if back.same(self) {
                    Some(t)
                } else {
                    None
                },
                None => None,
            },
            None => None,
        }
    }
}

/// The key under which the user called `username` is cached.
pub open spec fn user_key(username: Seq<char>) -> Seq<char> {
    "user:"@ + username
}

/// The key under which the level of the role called `name` is cached.
pub open spec fn level_key(name: Seq<char>) -> Seq<char> {
    "level:"@ + name
}

/// What the content of a log entry has to contain to define the level of
/// the role called `name`.
pub open spec fn level_needle(name: Seq<char>) -> Seq<char> {
    "\"name\":\""@ + name + "\""@
}

/// What a user's metadata has to contain for the user to own the secondary
/// token with this digest.
pub open spec fn token_needle(hashed: Seq<char>) -> Seq<char> {
    "\"secondary_token\":\""@ + hashed + "\""@
}

/// The role that marks a user as banned.
pub open spec fn is_banned(role: Seq<char>) -> bool {
    role == "banned"@
}

/// The user that the cache holds under a name: `None` where the key is not
/// held and where its text is no user.
pub open spec fn cached_user(cache: Map<Seq<char>, Seq<char>>, username: Seq<char>) -> Option<
    UserView,
> {
    match lookup(cache, user_key(username)) {
        Some(t) => user_of_text(t),
        None => None,
    }
}

/// The level that the cache holds for a role: `None` where the key is not
/// held and where its text is no level.
pub open spec fn cached_level(cache: Map<Seq<char>, Seq<char>>, name: Seq<char>) -> Option<
    RoleLevelLogView,
> {
    match lookup(cache, level_key(name)) {
        Some(t) => level_log_of_text(t),
        None => None,
    }
}

/// The cache after a user was read from the database under `username`.
pub open spec fn cache_with_user(
    cache: Map<Seq<char>, Seq<char>>,
    username: Seq<char>,
    u: UserView,
) -> Map<Seq<char>, Seq<char>> {
    match user_cache_text(u) {
        Some(t) => cache.insert(user_key(username), t),
        None => cache,
    }
}

/// The statement that asks for the newest log entry that defines the level
/// of the role called `name`.
pub open spec fn level_statement(logs_table: Seq<char>, name: Seq<char>) -> StatementView {
    StatementView::LogsByContent {
        table: logs_table,
        logtype: "level"@,
        needle: level_needle(name),
        limit: 1,
        offset: 0,
    }
}

/// What the reply to a question for a user amounts to. A row whose role is
/// `banned` is the error `banned`, whatever else the row holds; a row that
/// cannot be read is a `ValueError`; no row is `NotFound`; anything else is
/// `Other`.
pub open spec fn user_of_reply(reply: ReplyView, banned: AuthError) -> Result<UserView, AuthError> {
    match reply {
        ReplyView::Row(raw) => match project(raw) {
            Some(row) => match lookup(row, "role"@) {
                Some(role) => if is_banned(role) {
                    Err(banned)
                } else {
                    match user_of_row(row) {
                        Some(u) => Ok(u),
                        None => Err(AuthError::ValueError),
                    }
                },
                None => Err(AuthError::ValueError),
            },
            None => Err(AuthError::ValueError),
        },
        ReplyView::NoRow => Err(AuthError::NotFound),
        _ => Err(AuthError::Other),
    }
}

/// The level that the reply to a question for a level defines: the first
/// row, read as a log entry whose content is a level. `None` where there is
/// no row, where the row cannot be read, and where the database failed.
pub open spec fn level_of_reply(reply: ReplyView) -> Option<RoleLevelLogView> {
    match reply {
        ReplyView::Rows(rows) => if rows.len() > 0 {
            match project(rows[0]) {
                Some(row) => match (lookup(row, "id"@), lookup(row, "content"@)) {
                    (Some(id), Some(content)) => match level_of_text(content) {
                        Some(level) => Some(RoleLevelLogView { id, level }),
                        None => None,
                    },
                    _ => None,
                },
                None => None,
            }
        } else {
            None
        },
        _ => None,
    }
}

/// The level that a lookup ends with: the one the reply defines, or the
/// level of a plain member.
pub open spec fn level_result(reply: ReplyView) -> RoleLevelLogView {
    match level_of_reply(reply) {
        Some(l) => l,
        None => default_level_log(),
    }
}

/// The cache after the reply to a question for the level of `name`: a level
/// that was read is cached; the level of a plain member, which stands for
/// "not found", never is.
pub open spec fn cache_after_level(
    cache: Map<Seq<char>, Seq<char>>,
    name: Seq<char>,
    reply: ReplyView,
) -> Map<Seq<char>, Seq<char>> {
    match level_of_reply(reply) {
        Some(l) => match level_cache_text(l) {
            Some(t) => cache.insert(level_key(name), t),
            None => cache,
        },
        None => cache,
    }
}

/// A lookup of a level that waits for the reply.
#[derive(Debug)]
pub struct LevelLookup {
    pub name: String,
}

/// A lookup of a user on its way.
#[derive(Debug)]
pub enum UserLookup {
    /// Waiting for the row asked for by hashed identifier. `retry` holds the
    /// credential that is tried as a secondary token if this fails.
    ByHashed { retry: Option<String> },
    /// Waiting for the row asked for by secondary token.
    ByToken,
    /// Waiting for the row asked for by name.
    ByUsername { username: String },
    /// The user is read; waiting for the level of the user's role.
    Level { user: UserState<UserMetadata> },
}

/// The mathematical value of a [`UserLookup`].
pub enum UserLookupView {
    ByHashed { retry: Option<Seq<char>> },
    ByToken,
    ByUsername { username: Seq<char> },
    Level { user: UserView },
}

impl View for UserLookup {
    type V = UserLookupView;

    open spec fn view(&self) -> UserLookupView {
        match self {
            UserLookup::ByHashed { retry } => UserLookupView::ByHashed { retry: text_view(*retry) },
            UserLookup::ByToken => UserLookupView::ByToken,
            UserLookup::ByUsername { username } => UserLookupView::ByUsername {
                username: username@,
            },
            UserLookup::Level { user } => UserLookupView::Level { user: user@ },
        }
    }
}

/// The view of the outcome of a lookup of a user.
pub open spec fn user_result_view(r: Result<FullUser<UserMetadata>, AuthError>) -> Result<
    FullUserView,
    AuthError,
> {
    match r {
        Ok(u) => Ok(u@),
        Err(e) => Err(e),
    }
}

/// The view of a step of a lookup of a user.
pub open spec fn user_step_view(
    step: Step<UserLookup, Result<FullUser<UserMetadata>, AuthError>>,
) -> StepView<UserLookupView, Result<FullUserView, AuthError>> {
    match step {
        Step::Ask(p, s) => StepView::Ask(p@, s@),
        Step::Done(r) => StepView::Done(user_result_view(r)),
    }
}

/// The view of a step of a lookup of a level.
pub open spec fn level_step_view(step: Step<LevelLookup, RoleLevelLog>) -> StepView<
    Seq<char>,
    RoleLevelLogView,
> {
    match step {
        Step::Ask(p, s) => StepView::Ask(p.name@, s@),
        Step::Done(l) => StepView::Done(l@),
    }
}

/// How a lookup of a level starts: with the level from the cache, or with
/// the question to the database.
pub open spec fn level_start(
    logs_table: Seq<char>,
    cache: Map<Seq<char>, Seq<char>>,
    name: Seq<char>,
) -> StepView<Seq<char>, RoleLevelLogView> {
    match cached_level(cache, name) {
        Some(l) => StepView::Done(l),
        None => StepView::Ask(name, level_statement(logs_table, name)),
    }
}

/// How a lookup goes on once the user is read: the level of the user's role
/// comes from the cache, or the database is asked for it.
pub open spec fn level_phase(
    logs_table: Seq<char>,
    cache: Map<Seq<char>, Seq<char>>,
    user: UserView,
) -> StepView<UserLookupView, Result<FullUserView, AuthError>> {
    match cached_level(cache, user.role) {
        Some(l) => StepView::Done(Ok(FullUserView { user, level: l.level })),
        None => StepView::Ask(
            UserLookupView::Level { user },
            level_statement(logs_table, user.role),
        ),
    }
}

/// How a lookup by hashed identifier starts: with the question for the row.
pub open spec fn hashed_start(table: Seq<char>, hashed: Seq<char>) -> StepView<
    UserLookupView,
    Result<FullUserView, AuthError>,
> {
    StepView::Ask(
        UserLookupView::ByHashed { retry: None },
        StatementView::UserByHashedId { table, id_hashed: hashed },
    )
}

/// How a lookup by credential starts: with the question for the row whose
/// hashed identifier is the credential's digest, and the credential kept
/// for a second try as a secondary token.
pub open spec fn unhashed_start(table: Seq<char>, unhashed: Seq<char>) -> StepView<
    UserLookupView,
    Result<FullUserView, AuthError>,
> {
    StepView::Ask(
        UserLookupView::ByHashed { retry: Some(unhashed) },
        StatementView::UserByHashedId { table, id_hashed: hash_text(unhashed) },
    )
}

/// How a lookup by secondary token starts: with the question for the row
/// whose metadata holds the token's digest.
pub open spec fn token_start(table: Seq<char>, unhashed: Seq<char>) -> StepView<
    UserLookupView,
    Result<FullUserView, AuthError>,
> {
    StepView::Ask(
        UserLookupView::ByToken,
        StatementView::UserByMetadata { table, needle: token_needle(hash_text(unhashed)) },
    )
}

/// How a lookup by name starts. A user that the cache holds is returned
/// with the level of the role, unless the role is `banned`; without a user
/// in the cache the database is asked for the row.
pub open spec fn username_start(
    table: Seq<char>,
    logs_table: Seq<char>,
    cache: Map<Seq<char>, Seq<char>>,
    username: Seq<char>,
) -> StepView<UserLookupView, Result<FullUserView, AuthError>> {
    match cached_user(cache, username) {
        Some(u) => if is_banned(u.role) {
            StepView::Done(Err(AuthError::Banned))
        } else {
            level_phase(logs_table, cache, u)
        },
        None => StepView::Ask(
            UserLookupView::ByUsername { username },
            StatementView::UserByUsername { table, username },
        ),
    }
}

/// The cache after a step of a lookup of a user: a user read by name is
/// cached under the name, a level that was read under its role; nothing
/// else changes.
pub open spec fn cache_after_user(
    cache: Map<Seq<char>, Seq<char>>,
    pending: UserLookupView,
    reply: ReplyView,
) -> Map<Seq<char>, Seq<char>> {
    match pending {
        UserLookupView::ByUsername { username } => match user_of_reply(
            reply,
            AuthError::NotFound,
        ) {
            Ok(u) => cache_with_user(cache, username, u),
            Err(_) => cache,
        },
        UserLookupView::Level { user } => cache_after_level(cache, user.role, reply),
        _ => cache,
    }
}

/// How a lookup of a user goes on when a reply arrives.
pub open spec fn user_next(
    table: Seq<char>,
    logs_table: Seq<char>,
    cache: Map<Seq<char>, Seq<char>>,
    pending: UserLookupView,
    reply: ReplyView,
) -> StepView<UserLookupView, Result<FullUserView, AuthError>> {
    match pending {
        UserLookupView::ByHashed { retry } => match user_of_reply(reply, AuthError::Banned) {
            Ok(u) => level_phase(logs_table, cache, u),
            Err(e) => match retry {
                Some(unhashed) => token_start(table, unhashed),
                None => StepView::Done(Err(e)),
            },
        },
        UserLookupView::ByToken => match user_of_reply(reply, AuthError::Banned) {
            Ok(u) => level_phase(logs_table, cache, u),
            Err(e) => StepView::Done(Err(e)),
        },
        UserLookupView::ByUsername { username } => match user_of_reply(
            reply,
            AuthError::NotFound,
        ) {
            Ok(u) => level_phase(logs_table, cache_with_user(cache, username, u), u),
            Err(e) => StepView::Done(Err(e)),
        },
        UserLookupView::Level { user } => StepView::Done(
            Ok(FullUserView { user, level: level_result(reply).level }),
        ),
    }
}

/// The key under which the user called `username` is cached.
fn user_key_of(username: &str) -> (r: String)
    ensures
        r@ == user_key(username@),
{
    let mut key = String::from_str("user:");
    key.append(username);
    key
}

/// The key under which the level of the role called `name` is cached.
fn level_key_of(name: &str) -> (r: String)
    ensures
        r@ == level_key(name@),
{
    let mut key = String::from_str("level:");
    key.append(name);
    key
}

/// Reads the reply to a question for a user.
fn read_user(base: &StarterDatabase, reply: &Reply, banned: AuthError) -> (r: Result<
    UserState<UserMetadata>,
    AuthError,
>)
    ensures
        match r {
            Ok(u) => user_of_reply(reply@, banned) == Ok::<UserView, AuthError>(u@),
            Err(e) => user_of_reply(reply@, banned) == Err::<UserView, AuthError>(e),
        },
{
    match reply {
        Reply::Row(raw) => match base.textify_row(raw) {
            Some(row) => match row.get("role") {
                Some(role) => if same_text(role.as_str(), "banned") {
                    Err(banned)
                } else {
                    match UserState::from_row(&row) {
                        Some(u) => Ok(u),
                        None => Err(AuthError::ValueError),
                    }
                },
                None => Err(AuthError::ValueError),
            },
            None => Err(AuthError::ValueError),
        },
        Reply::NoRow => Err(AuthError::NotFound),
        _ => Err(AuthError::Other),
    }
}

/// Reads the reply to a question for a level.
fn read_level(base: &StarterDatabase, reply: &Reply) -> (r: Option<RoleLevelLog>)
    ensures
        match r {
            Some(l) => level_of_reply(reply@) == Some(l@),
            None => level_of_reply(reply@) is None,
        },
{
    match reply {
        Reply::Rows(rows) => {
            if rows.len() == 0 {
                return None;
            }
            let row = match base.textify_row(&rows[0]) {
                Some(row) => row,
                None => {
                    return None;
                },
            };
            let id = match row.get("id") {
                Some(v) => v,
                None => {
                    return None;
                },
            };
            let content = match row.get("content") {
                Some(v) => v,
                None => {
                    return None;
                },
            };
            match RoleLevel::from_json_text(content.as_str()) {
                Some(level) => Some(RoleLevelLog { id, level }),
                None => None,
            }
        },
        _ => None,
    }
}

impl AuthDatabase {
    /// The identity store on the tables that `options` name.
    pub fn new(options: DatabaseOptions) -> (r: AuthDatabase)
        ensures
            r.options.table@ == options.table@,
            r.options.logs_table@ == options.logs_table@,
    {
        AuthDatabase { options }
    }

    /// The statement that asks for the level of the role called `name`.
    fn level_statement(&self, name: &str) -> (r: Statement)
        ensures
            r@ == level_statement(self.options.logs_table@, name@),
    {
        let mut needle = String::from_str("\"name\":\"");
        needle.append(name);
        needle.append("\"");
        Statement::LogsByContent {
            table: self.options.logs_table.clone(),
            logtype: String::from_str("level"),
            needle,
            limit: 1,
            offset: 0,
        }
    }

    /// The statement that asks for the user who owns a secondary token.
    fn token_statement(&self, unhashed: String) -> (r: Statement)
        ensures
            r@ == (StatementView::UserByMetadata {
                table: self.options.table@,
                needle: token_needle(hash_text(unhashed@)),
            }),
    {
        let mut needle = String::from_str("\"secondary_token\":\"");
        needle.append(hash(unhashed).as_str());
        needle.append("\"");
        Statement::UserByMetadata { table: self.options.table.clone(), needle }
    }

    /// The level that the cache holds for the role called `name`.
    fn cached_level(&self, base: &StarterDatabase, name: &str) -> (r: Option<RoleLevelLog>)
        ensures
            match r {
                Some(l) => cached_level(base.cachedb@, name@) == Some(l@),
                None => cached_level(base.cachedb@, name@) is None,
            },
    {
        match base.cachedb.get(level_key_of(name).as_str()) {
            Some(text) => RoleLevelLog::from_json_text(text.as_str()),
            None => None,
        }
    }

    /// Goes on once the user is read.
    fn level_phase(&self, base: &StarterDatabase, user: UserState<UserMetadata>) -> (r: Step<
        UserLookup,
        Result<FullUser<UserMetadata>, AuthError>,
    >)
        ensures
            user_step_view(r) == level_phase(self.options.logs_table@, base.cachedb@, user@),
    {
        match self.cached_level(base, user.role.as_str()) {
            Some(l) => Step::Done(Ok(FullUser { user, level: l.level })),
            None => {
                let statement = self.level_statement(user.role.as_str());
                Step::Ask(UserLookup::Level { user }, statement)
            },
        }
    }

    /// Starts the lookup of a user by hashed identifier.
    pub fn get_user_by_hashed(&self, hashed: String) -> (r: Step<
        UserLookup,
        Result<FullUser<UserMetadata>, AuthError>,
    >)
        ensures
            user_step_view(r) == hashed_start(self.options.table@, hashed@),
    {
        Step::Ask(
            UserLookup::ByHashed { retry: None },
            Statement::UserByHashedId { table: self.options.table.clone(), id_hashed: hashed },
        )
    }

    /// Starts the lookup of a user by the credential the user logs in with.
    /// The credential is hashed and looked up as an identifier; if that
    /// fails for any reason, it is tried as a secondary token.
    pub fn get_user_by_unhashed(&self, unhashed: String) -> (r: Step<
        UserLookup,
        Result<FullUser<UserMetadata>, AuthError>,
    >)
        ensures
            user_step_view(r) == unhashed_start(self.options.table@, unhashed@),
    {
        let hashed = hash(unhashed.clone());
        Step::Ask(
            UserLookup::ByHashed { retry: Some(unhashed) },
            Statement::UserByHashedId { table: self.options.table.clone(), id_hashed: hashed },
        )
    }

    /// Starts the lookup of a user by a secondary token: the user whose
    /// metadata holds the token's digest.
    pub fn get_user_by_unhashed_st(&self, unhashed: String) -> (r: Step<
        UserLookup,
        Result<FullUser<UserMetadata>, AuthError>,
    >)
        ensures
            user_step_view(r) == token_start(self.options.table@, unhashed@),
    {
        Step::Ask(UserLookup::ByToken, self.token_statement(unhashed))
    }

    /// Starts the lookup of a user by name. A user that the cache holds is
    /// not asked for again, but is still refused if banned.
    pub fn get_user_by_username(&self, base: &StarterDatabase, username: String) -> (r: Step<
        UserLookup,
        Result<FullUser<UserMetadata>, AuthError>,
    >)
        ensures
            user_step_view(r) == username_start(
                self.options.table@,
                self.options.logs_table@,
                base.cachedb@,
                username@,
            ),
    {
        let cached = match base.cachedb.get(user_key_of(username.as_str()).as_str()) {
            Some(text) => UserState::from_json_text(text.as_str()),
            None => None,
        };
        match cached {
            Some(user) => {
                if same_text(user.role.as_str(), "banned") {
                    Step::Done(Err(AuthError::Banned))
                } else {
                    self.level_phase(base, user)
                }
            },
            None => {
                let statement = Statement::UserByUsername {
                    table: self.options.table.clone(),
                    username: username.clone(),
                };
                Step::Ask(UserLookup::ByUsername { username }, statement)
            },
        }
    }

    /// Goes on with the lookup of a user when a reply arrives.
    pub fn get_user_resume(
        &self,
        base: &mut StarterDatabase,
        pending: UserLookup,
        reply: Reply,
    ) -> (r: Step<UserLookup, Result<FullUser<UserMetadata>, AuthError>>)
        ensures
            user_step_view(r) == user_next(
                self.options.table@,
                self.options.logs_table@,
                old(base).cachedb@,
                pending@,
                reply@,
            ),
            final(base).cachedb@ == cache_after_user(old(base).cachedb@, pending@, reply@),
            final(base).dialect == old(base).dialect,
            final(base).options == old(base).options,
    {
        match pending {
            UserLookup::ByHashed { retry } => match read_user(base, &reply, AuthError::Banned) {
                Ok(user) => self.level_phase(base, user),
                Err(e) => match retry {
                    Some(unhashed) => Step::Ask(
                        UserLookup::ByToken,
                        self.token_statement(unhashed),
                    ),
                    None => Step::Done(Err(e)),
                },
            },
            UserLookup::ByToken => match read_user(base, &reply, AuthError::Banned) {
                Ok(user) => self.level_phase(base, user),
                Err(e) => Step::Done(Err(e)),
            },
            UserLookup::ByUsername { username } => match read_user(
                base,
                &reply,
                AuthError::NotFound,
            ) {
                Ok(user) => {
                    match user.cache_text() {
                        Some(text) => {
                            base.cachedb.set(user_key_of(username.as_str()), text);
                        },
                        None => {},
                    }
                    self.level_phase(base, user)
                },
                Err(e) => Step::Done(Err(e)),
            },
            UserLookup::Level { user } => {
                let level = self.get_level_by_role_resume(
                    base,
                    LevelLookup { name: user.role.clone() },
                    reply,
                );
                Step::Done(Ok(FullUser { user, level: level.level }))
            },
        }
    }

    /// Starts the lookup of the level of the role called `name`.
    pub fn get_level_by_role(&self, base: &StarterDatabase, name: String) -> (r: Step<
        LevelLookup,
        RoleLevelLog,
    >)
        ensures
            level_step_view(r) == level_start(self.options.logs_table@, base.cachedb@, name@),
    {
        match self.cached_level(base, name.as_str()) {
            Some(l) => Step::Done(l),
            None => {
                let statement = self.level_statement(name.as_str());
                Step::Ask(LevelLookup { name }, statement)
            },
        }
    }

    /// Ends the lookup of a level with the reply of the database. A level
    /// that was read is cached and returned. Where none was found the level
    /// of a plain member is returned, and the cache stays as it was.
    pub fn get_level_by_role_resume(
        &self,
        base: &mut StarterDatabase,
        pending: LevelLookup,
        reply: Reply,
    ) -> (r: RoleLevelLog)
        ensures
            r@ == level_result(reply@),
            final(base).cachedb@ == cache_after_level(old(base).cachedb@, pending.name@, reply@),
            final(base).dialect == old(base).dialect,
            final(base).options == old(base).options,
    {
        match read_level(base, &reply) {
            Some(l) => {
                match l.cache_text() {
                    Some(text) => {
                        base.cachedb.set(level_key_of(pending.name.as_str()), text);
                    },
                    None => {},
                }
                l
            },
            None => RoleLevelLog::default(),
        }
    }
}

} // verus!
