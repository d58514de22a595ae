use dorsal::db::db::{RawColumn, RawRow, RawValue, Reply, Step};
use dorsal::db::special::auth_db::{
    AuthDatabase, AuthError, DatabaseOptions as AuthOptions, FullUser, RoleLevel, RoleLevelLog,
    UserLookup, UserMetadata, UserState,
};
use dorsal::db::special::log_db::{
    DatabaseOptions as LogOptions, Log, LogChange, LogDatabase, LogError,
};
use dorsal::db::special::notification_db::{
    Notification, NotificationDatabase, NotificationError, NotificationPush, PushError,
};
use dorsal::db::sql::Statement;
use dorsal::utility::{hash, unix_epoch_timestamp};
use dorsal::{DatabaseOpts, DefaultReturn, StarterDatabase};

/// A database in memory that answers the statements of the stores.
struct Tables {
    users: Vec<[String; 5]>,
    logs: Vec<[String; 4]>,
    asked: Vec<Statement>,
    down: bool,
}

fn row_of(names: &[&str], values: &[String]) -> RawRow {
    RawRow {
        columns: names
            .iter()
            .zip(values.iter())
            .map(|(n, v)| RawColumn { name: String::from(*n), value: RawValue::Text(v.clone()) })
            .collect(),
    }
}

const USER_COLUMNS: [&str; 5] = ["username", "id_hashed", "role", "timestamp", "metadata"];
const LOG_COLUMNS: [&str; 4] = ["id", "logtype", "timestamp", "content"];

impl Tables {
    fn new() -> Tables {
        Tables { users: Vec::new(), logs: Vec::new(), asked: Vec::new(), down: false }
    }

    fn add_user(&mut self, username: &str, credential: &str, role: &str, metadata: &str) {
        self.users.push([
            String::from(username),
            hash(String::from(credential)),
            String::from(role),
            String::from("1700000000000"),
            String::from(metadata),
        ]);
    }

    fn add_log(&mut self, id: &str, logtype: &str, timestamp: &str, content: &str) {
        self.logs.push([
            String::from(id),
            String::from(logtype),
            String::from(timestamp),
            String::from(content),
        ]);
    }

    fn one_user(&self, pick: impl Fn(&[String; 5]) -> bool) -> Reply {
        match self.users.iter().find(|u| pick(u)) {
            Some(u) => Reply::Row(row_of(&USER_COLUMNS, u)),
            None => Reply::NoRow,
        }
    }

    fn answer(&mut self, statement: &Statement) -> Reply {
        self.asked.push(statement.clone());
        if self.down {
            return Reply::Failed;
        }
        match statement {
            Statement::UserByHashedId { id_hashed, .. } => self.one_user(|u| &u[1] == id_hashed),
            Statement::UserByMetadata { needle, .. } => {
                self.one_user(|u| u[4].contains(needle.as_str()))
            }
            Statement::UserByUsername { username, .. } => self.one_user(|u| &u[0] == username),
            Statement::LogById { id, .. } => match self.logs.iter().find(|l| &l[0] == id) {
                Some(l) => Reply::Row(row_of(&LOG_COLUMNS, l)),
                None => Reply::NoRow,
            },
            Statement::LogsByContent { logtype, needle, limit, offset, .. } => {
                let mut found: Vec<&[String; 4]> = self
                    .logs
                    .iter()
                    .filter(|l| &l[1] == logtype && l[3].contains(needle.as_str()))
                    .collect();
                found.sort_by_key(|l| std::cmp::Reverse(l[2].parse::<u128>().unwrap_or(0)));
                Reply::Rows(
                    found
                        .into_iter()
                        .skip(*offset as usize)
                        .take(*limit as usize)
                        .map(|l| row_of(&LOG_COLUMNS, l))
                        .collect(),
                )
            }
            Statement::InsertLog { id, logtype, timestamp, content, .. } => {
                self.logs.push([
                    id.clone(),
                    logtype.clone(),
                    timestamp.to_string(),
                    content.clone(),
                ]);
                Reply::Done
            }
            Statement::UpdateLog { id, content, .. } => {
                for l in self.logs.iter_mut().filter(|l| &l[0] == id) {
                    l[3] = content.clone();
                }
                Reply::Done
            }
            Statement::DeleteLog { id, .. } => {
                self.logs.retain(|l| &l[0] != id);
                Reply::Done
            }
        }
    }
}

fn base() -> StarterDatabase {
    StarterDatabase::new(DatabaseOpts {
        _type: None,
        host: None,
        user: String::new(),
        pass: String::new(),
        name: String::new(),
    })
}

fn logs() -> LogDatabase {
    LogDatabase::new(LogOptions { table: String::from("Logs") })
}

fn auth() -> AuthDatabase {
    AuthDatabase::new(AuthOptions { table: String::from("Users"), logs_table: String::from("Logs") })
}

fn notifications() -> NotificationDatabase {
    NotificationDatabase::new(auth(), logs())
}

fn create(db: &mut Tables, logtype: &str, content: &str) -> Result<String, LogError> {
    let store = logs();
    let (pending, statement) = store.create_log(String::from(logtype), String::from(content));
    let reply = db.answer(&statement);
    store.create_log_resume(pending, reply)
}

fn get(base: &mut StarterDatabase, db: &mut Tables, id: &str) -> Result<Log, LogError> {
    let store = logs();
    match store.get_log_by_id(base, String::from(id)) {
        Step::Done(r) => r,
        Step::Ask(pending, statement) => {
            let reply = db.answer(&statement);
            store.get_log_by_id_resume(base, pending, reply)
        }
    }
}

fn change(
    base: &mut StarterDatabase,
    db: &mut Tables,
    first: Step<LogChange, Result<(), LogError>>,
) -> Result<(), LogError> {
    let store = logs();
    let mut step = first;
    loop {
        match step {
            Step::Done(r) => return r,
            Step::Ask(pending, statement) => {
                let reply = db.answer(&statement);
                step = store.change_resume(base, pending, reply);
            }
        }
    }
}

fn edit(base: &mut StarterDatabase, db: &mut Tables, id: &str, content: &str) -> Result<(), LogError> {
    let first = logs().edit_log(base, String::from(id), String::from(content));
    change(base, db, first)
}

fn delete(base: &mut StarterDatabase, db: &mut Tables, id: &str) -> Result<(), LogError> {
    let first = logs().delete_log(base, String::from(id));
    change(base, db, first)
}

fn finish_user(
    base: &mut StarterDatabase,
    db: &mut Tables,
    first: Step<UserLookup, Result<FullUser<UserMetadata>, AuthError>>,
) -> Result<FullUser<UserMetadata>, AuthError> {
    let store = auth();
    let mut step = first;
    loop {
        match step {
            Step::Done(r) => return r,
            Step::Ask(pending, statement) => {
                let reply = db.answer(&statement);
                step = store.get_user_resume(base, pending, reply);
            }
        }
    }
}

fn by_hashed(
    base: &mut StarterDatabase,
    db: &mut Tables,
    hashed: &str,
) -> Result<FullUser<UserMetadata>, AuthError> {
    let first = auth().get_user_by_hashed(String::from(hashed));
    finish_user(base, db, first)
}

fn by_unhashed(
    base: &mut StarterDatabase,
    db: &mut Tables,
    unhashed: &str,
) -> Result<FullUser<UserMetadata>, AuthError> {
    let first = auth().get_user_by_unhashed(String::from(unhashed));
    finish_user(base, db, first)
}

fn by_token(
    base: &mut StarterDatabase,
    db: &mut Tables,
    unhashed: &str,
) -> Result<FullUser<UserMetadata>, AuthError> {
    let first = auth().get_user_by_unhashed_st(String::from(unhashed));
    finish_user(base, db, first)
}

fn by_username(
    base: &mut StarterDatabase,
    db: &mut Tables,
    username: &str,
) -> Result<FullUser<UserMetadata>, AuthError> {
    let first = auth().get_user_by_username(base, String::from(username));
    finish_user(base, db, first)
}

fn level(base: &mut StarterDatabase, db: &mut Tables, name: &str) -> RoleLevelLog {
    let store = auth();
    match store.get_level_by_role(base, String::from(name)) {
        Step::Done(l) => l,
        Step::Ask(pending, statement) => {
            let reply = db.answer(&statement);
            store.get_level_by_role_resume(base, pending, reply)
        }
    }
}

fn push(
    base: &mut StarterDatabase,
    db: &mut Tables,
    first: Step<NotificationPush, Result<String, PushError>>,
) -> Result<String, PushError> {
    let store = notifications();
    let mut step = first;
    loop {
        match step {
            Step::Done(r) => return r,
            Step::Ask(pending, statement) => {
                let reply = db.answer(&statement);
                step = store.push_user_notification_resume(base, pending, reply);
            }
        }
    }
}

fn notify(user: &str, content: &str) -> Notification {
    Notification {
        service: String::from("mail"),
        user: String::from(user),
        content: String::from(content),
        address: String::from("/inbox"),
    }
}

fn list(
    base: &StarterDatabase,
    db: &mut Tables,
    user: &str,
    offset: Option<i32>,
) -> Result<Vec<Log>, NotificationError> {
    let store = notifications();
    let statement = store.get_user_notifications(String::from(user), offset);
    let reply = db.answer(&statement);
    store.get_user_notifications_resume(base, reply)
}

fn has_notification(db: &mut Tables, user: &str) -> Result<bool, NotificationError> {
    let store = notifications();
    let statement = store.user_has_notification(String::from(user));
    let reply = db.answer(&statement);
    store.user_has_notification_resume(reply)
}

const PLAIN: &str = r#"{"about":"hi","avatar_url":null,"secondary_token":null,"nickname":null}"#;

fn plain_metadata() -> UserMetadata {
    UserMetadata { about: String::from("hi"), avatar_url: None, secondary_token: None, nickname: None }
}

fn member() -> RoleLevel {
    RoleLevel { elevation: 0, name: String::from("member"), permissions: vec![] }
}

// ---- the log store ----

#[test]
fn created_entry_is_found_with_what_it_was_created_with() {
    let mut db = Tables::new();
    let mut base = base();
    let before = unix_epoch_timestamp();
    let id = create(&mut db, "t", "{\"k\":\"v\"}").expect("created");
    let after = unix_epoch_timestamp();
    assert_eq!(id.len(), 64);
    let log = get(&mut base, &mut db, &id).expect("found");
    assert_eq!(log.id, id);
    assert_eq!(log.logtype, "t");
    assert_eq!(log.content, "{\"k\":\"v\"}");
    assert!(before <= log.timestamp && log.timestamp <= after);
}

#[test]
fn created_entries_get_different_identifiers() {
    let mut db = Tables::new();
    let a = create(&mut db, "t", "same").expect("created");
    let b = create(&mut db, "t", "same").expect("created");
    assert_ne!(a, b);
    assert_eq!(db.logs.len(), 2);
}

#[test]
fn create_does_not_touch_the_cache() {
    let mut db = Tables::new();
    let base = base();
    let id = create(&mut db, "t", "c").expect("created");
    assert_eq!(base.cachedb.get(&format!("log:{id}")), None);
}

#[test]
fn create_with_writes_the_insert() {
    let (pending, statement) = logs().create_log_with(
        String::from("i1"),
        1_700_000_000_123,
        String::from("t"),
        String::from("c"),
    );
    assert_eq!(pending.id, "i1");
    assert_eq!(
        statement,
        Statement::InsertLog {
            table: String::from("Logs"),
            id: String::from("i1"),
            logtype: String::from("t"),
            timestamp: 1_700_000_000_123,
            content: String::from("c"),
        }
    );
}

#[test]
fn create_fails_with_other_when_the_insert_does_not_run() {
    let mut db = Tables::new();
    db.down = true;
    assert_eq!(create(&mut db, "t", "c"), Err(LogError::Other));
    let (pending, _) = logs().create_log(String::from("t"), String::from("c"));
    assert_eq!(logs().create_log_resume(pending, Reply::NoRow), Err(LogError::Other));
}

#[test]
fn second_lookup_is_served_by_the_cache() {
    let mut db = Tables::new();
    let mut base = base();
    db.add_log("i1", "t", "1700000000000", "c1");
    let first = get(&mut base, &mut db, "i1").expect("found");
    assert_eq!(db.asked.len(), 1);
    assert_eq!(
        base.cachedb.get("log:i1"),
        Some(String::from(r#"{"id":"i1","logtype":"t","timestamp":1700000000000,"content":"c1"}"#))
    );
    let second = get(&mut base, &mut db, "i1").expect("found");
    assert_eq!(db.asked.len(), 1);
    assert_eq!(first, second);
    assert_eq!(
        second,
        Log {
            id: String::from("i1"),
            logtype: String::from("t"),
            timestamp: 1_700_000_000_000,
            content: String::from("c1"),
        }
    );
}

#[test]
fn lookup_tells_missing_from_failed_from_malformed() {
    let mut db = Tables::new();
    let mut base = base();
    assert_eq!(get(&mut base, &mut db, "nope"), Err(LogError::NotFound));
    db.add_log("bad", "t", "yesterday", "c");
    assert_eq!(get(&mut base, &mut db, "bad"), Err(LogError::ValueError));
    assert_eq!(base.cachedb.get("log:bad"), None);
    db.down = true;
    assert_eq!(get(&mut base, &mut db, "bad"), Err(LogError::Other));
    assert_eq!(base.cachedb.get("log:nope"), None);
}

#[test]
fn lookup_of_a_row_without_a_column_is_a_value_error() {
    let store = logs();
    let mut base = base();
    let step = store.get_log_by_id(&base, String::from("i1"));
    let pending = match step {
        Step::Ask(p, s) => {
            assert_eq!(s, Statement::LogById { table: String::from("Logs"), id: String::from("i1") });
            p
        }
        Step::Done(_) => panic!("nothing is cached"),
    };
    let row = row_of(&["id", "logtype", "timestamp"], &[
        String::from("i1"),
        String::from("t"),
        String::from("1"),
    ]);
    assert_eq!(store.get_log_by_id_resume(&mut base, pending, Reply::Row(row)), Err(LogError::ValueError));
    assert_eq!(base.cachedb.get("log:i1"), None);
}

#[test]
fn lookup_of_an_unexpected_reply_is_other() {
    let store = logs();
    let mut base = base();
    for reply in [Reply::Done, Reply::Rows(vec![]), Reply::Failed] {
        let pending = match store.get_log_by_id(&base, String::from("i1")) {
            Step::Ask(p, _) => p,
            Step::Done(_) => panic!("nothing is cached"),
        };
        assert_eq!(store.get_log_by_id_resume(&mut base, pending, reply), Err(LogError::Other));
    }
}

#[test]
fn a_cached_text_that_is_no_entry_counts_as_a_miss() {
    let mut db = Tables::new();
    let mut base = base();
    db.add_log("i1", "t", "5", "c");
    base.cachedb.set(String::from("log:i1"), String::from("not json"));
    let log = get(&mut base, &mut db, "i1").expect("found");
    assert_eq!(log.content, "c");
    assert_eq!(db.asked.len(), 1);
    assert_eq!(
        base.cachedb.get("log:i1"),
        Some(String::from(r#"{"id":"i1","logtype":"t","timestamp":5,"content":"c"}"#))
    );
}

#[test]
fn edit_of_a_missing_entry_is_not_found_and_changes_nothing() {
    let mut db = Tables::new();
    let mut base = base();
    db.add_log("other", "t", "1", "kept");
    assert_eq!(edit(&mut base, &mut db, "ghost", "new"), Err(LogError::NotFound));
    assert_eq!(
        db.asked,
        vec![Statement::LogById { table: String::from("Logs"), id: String::from("ghost") }]
    );
    assert_eq!(db.logs.len(), 1);
    assert_eq!(db.logs[0][3], "kept");
    assert_eq!(base.cachedb.get("log:ghost"), None);
    assert_eq!(base.cachedb.get("log:other"), None);
}

#[test]
fn delete_of_a_missing_entry_is_not_found_and_changes_nothing() {
    let mut db = Tables::new();
    let mut base = base();
    db.add_log("other", "t", "1", "kept");
    assert_eq!(delete(&mut base, &mut db, "ghost"), Err(LogError::NotFound));
    assert_eq!(db.asked.len(), 1);
    assert_eq!(db.logs.len(), 1);
    assert_eq!(base.cachedb.get("log:ghost"), None);
}

#[test]
fn edit_after_a_cached_lookup_is_seen_by_the_next_lookup() {
    let mut db = Tables::new();
    let mut base = base();
    db.add_log("i1", "t", "1700000000000", "c1");
    assert_eq!(get(&mut base, &mut db, "i1").expect("found").content, "c1");
    assert!(base.cachedb.get("log:i1").is_some());
    assert_eq!(edit(&mut base, &mut db, "i1", "c2"), Ok(()));
    assert_eq!(base.cachedb.get("log:i1"), None);
    let log = get(&mut base, &mut db, "i1").expect("found");
    assert_eq!(log.content, "c2");
    assert_eq!(log.id, "i1");
    assert_eq!(log.logtype, "t");
    assert_eq!(log.timestamp, 1_700_000_000_000);
}

#[test]
fn edit_of_a_cached_entry_asks_for_the_update_only() {
    let mut db = Tables::new();
    let mut base = base();
    db.add_log("i1", "t", "1", "c1");
    get(&mut base, &mut db, "i1").expect("found");
    db.asked.clear();
    assert_eq!(edit(&mut base, &mut db, "i1", "c2"), Ok(()));
    assert_eq!(
        db.asked,
        vec![Statement::UpdateLog {
            table: String::from("Logs"),
            id: String::from("i1"),
            content: String::from("c2"),
        }]
    );
}

#[test]
fn edit_of_an_entry_that_is_not_cached_looks_it_up_first() {
    let mut db = Tables::new();
    let mut base = base();
    db.add_log("i1", "t", "1", "c1");
    assert_eq!(edit(&mut base, &mut db, "i1", "c2"), Ok(()));
    assert_eq!(
        db.asked,
        vec![
            Statement::LogById { table: String::from("Logs"), id: String::from("i1") },
            Statement::UpdateLog {
                table: String::from("Logs"),
                id: String::from("i1"),
                content: String::from("c2"),
            },
        ]
    );
    assert_eq!(base.cachedb.get("log:i1"), None);
    assert_eq!(db.logs[0][3], "c2");
}

#[test]
fn a_failed_update_leaves_the_cache_alone() {
    let store = logs();
    let mut db = Tables::new();
    let mut base = base();
    db.add_log("i1", "t", "1", "c1");
    get(&mut base, &mut db, "i1").expect("found");
    let cached = base.cachedb.get("log:i1");
    let pending = match store.edit_log(&base, String::from("i1"), String::from("c2")) {
        Step::Ask(pending, _) => pending,
        Step::Done(_) => panic!("an edit starts with a statement"),
    };
    match store.change_resume(&mut base, pending, Reply::Failed) {
        Step::Done(r) => assert_eq!(r, Err(LogError::Other)),
        Step::Ask(..) => panic!("the edit is over"),
    }
    assert_eq!(base.cachedb.get("log:i1"), cached);
}

#[test]
fn delete_removes_the_row_and_the_cache_entry() {
    let mut db = Tables::new();
    let mut base = base();
    db.add_log("i1", "t", "1", "c1");
    db.add_log("i2", "t", "2", "c2");
    get(&mut base, &mut db, "i1").expect("found");
    assert_eq!(delete(&mut base, &mut db, "i1"), Ok(()));
    assert_eq!(base.cachedb.get("log:i1"), None);
    assert_eq!(get(&mut base, &mut db, "i1"), Err(LogError::NotFound));
    assert_eq!(get(&mut base, &mut db, "i2").expect("found").content, "c2");
}

#[test]
fn listing_filters_by_type_and_content_newest_first() {
    let store = logs();
    let mut db = Tables::new();
    let base = base();
    db.add_log("a", "audit", "10", "login ann");
    db.add_log("b", "audit", "30", "login bob");
    db.add_log("c", "audit", "20", "logout ann");
    db.add_log("d", "other", "40", "login ann");
    let statement =
        store.list_by_type_and_pattern(String::from("audit"), String::from("ann"), 10, 0);
    let reply = db.answer(&statement);
    let found = store.list_resume(&base, reply).expect("listed");
    let ids: Vec<&str> = found.iter().map(|l| l.id.as_str()).collect();
    assert_eq!(ids, vec!["c", "a"]);
    let statement = store.list_by_type_and_pattern(String::from("audit"), String::new(), 1, 1);
    let reply = db.answer(&statement);
    let found = store.list_resume(&base, reply).expect("listed");
    assert_eq!(found.len(), 1);
    assert_eq!(found[0].id, "c");
}

#[test]
fn listing_with_a_malformed_row_is_a_value_error() {
    let store = logs();
    let base = base();
    let good = row_of(&LOG_COLUMNS, &[
        String::from("a"),
        String::from("t"),
        String::from("1"),
        String::from("c"),
    ]);
    let bad = row_of(&LOG_COLUMNS, &[
        String::from("b"),
        String::from("t"),
        String::from("-1"),
        String::from("c"),
    ]);
    assert_eq!(store.list_resume(&base, Reply::Rows(vec![good.clone()])).map(|l| l.len()), Ok(1));
    assert_eq!(store.list_resume(&base, Reply::Rows(vec![good, bad])), Err(LogError::ValueError));
    assert_eq!(store.list_resume(&base, Reply::Rows(vec![])), Ok(vec![]));
    assert_eq!(store.list_resume(&base, Reply::Failed), Err(LogError::Other));
    assert_eq!(store.list_resume(&base, Reply::NoRow), Err(LogError::Other));
}

#[test]
fn log_json_round_trip() {
    let log = Log {
        id: String::from("i\"1"),
        logtype: String::from("t\\"),
        timestamp: 18_446_744_073_709_551_615,
        content: String::from("{\"nested\":\"json\"}\n"),
    };
    let text = log.to_json_text().expect("written");
    assert_eq!(
        text,
        r#"{"id":"i\"1","logtype":"t\\","timestamp":18446744073709551615,"content":"{\"nested\":\"json\"}\n"}"#
    );
    assert_eq!(Log::from_json_text(&text), Some(log.clone()));
    assert_eq!(log.cache_text(), Some(text));
    assert!(log.same(&log.clone()));
}

#[test]
fn log_from_json_wants_all_four_members() {
    assert!(Log::from_json_text(r#"{"id":"a","logtype":"t","timestamp":1,"content":"c"}"#).is_some());
    assert!(Log::from_json_text(r#"{"content":"c","timestamp":1,"logtype":"t","id":"a","x":0}"#).is_some());
    assert_eq!(Log::from_json_text(r#"{"id":"a","logtype":"t","timestamp":1}"#), None);
    assert_eq!(Log::from_json_text(r#"{"id":"a","logtype":"t","timestamp":"1","content":"c"}"#), None);
    assert_eq!(Log::from_json_text(r#"{"id":1,"logtype":"t","timestamp":1,"content":"c"}"#), None);
    assert_eq!(Log::from_json_text(r#"["a","t",1,"c"]"#), None);
    assert_eq!(Log::from_json_text("{"), None);
}

#[test]
fn log_error_messages() {
    assert_eq!(LogError::ValueError.to_string(), "One of the field values given is invalid.");
    assert_eq!(LogError::NotFound.to_string(), "No asset with this selector could be found.");
    assert_eq!(LogError::Other.to_string(), "An unspecified error has occured");
    let envelope: DefaultReturn<Option<String>> = LogError::NotFound.into_return();
    assert!(!envelope.success);
    assert_eq!(envelope.message, "No asset with this selector could be found.");
    assert_eq!(envelope.payload, None);
}

// ---- the identity store ----

#[test]
fn lookup_by_name_returns_the_user_from_the_database_then_from_the_cache() {
    let mut db = Tables::new();
    let mut base = base();
    db.add_user(
        "ann",
        "secret",
        "member",
        r#"{"about":"hi","avatar_url":"https://a/b.png","nickname":"Annie"}"#,
    );
    let first = by_username(&mut base, &mut db, "ann").expect("found");
    assert_eq!(
        first.user,
        UserState {
            username: String::from("ann"),
            id_hashed: hash(String::from("secret")),
            role: String::from("member"),
            timestamp: 1_700_000_000_000,
            metadata: UserMetadata {
                about: String::from("hi"),
                avatar_url: Some(String::from("https://a/b.png")),
                secondary_token: None,
                nickname: Some(String::from("Annie")),
            },
        }
    );
    assert_eq!(first.level, member());
    let asked = db.asked.len();
    assert_eq!(asked, 2);
    let second = by_username(&mut base, &mut db, "ann").expect("found");
    assert_eq!(second, first);
    assert_eq!(
        db.asked[asked..],
        [Statement::LogsByContent {
            table: String::from("Logs"),
            logtype: String::from("level"),
            needle: String::from("\"name\":\"member\""),
            limit: 1,
            offset: 0,
        }]
    );
}

#[test]
fn lookup_by_name_caches_the_user_as_json() {
    let mut db = Tables::new();
    let mut base = base();
    db.add_user("ann", "secret", "member", PLAIN);
    by_username(&mut base, &mut db, "ann").expect("found");
    let digest = hash(String::from("secret"));
    assert_eq!(
        base.cachedb.get("user:ann"),
        Some(format!(
            "{{\"username\":\"ann\",\"id_hashed\":\"{digest}\",\"role\":\"member\",\"timestamp\":1700000000000,\"metadata\":{PLAIN}}}"
        ))
    );
}

#[test]
fn lookup_by_name_resolves_the_level_of_the_role() {
    let mut db = Tables::new();
    let mut base = base();
    db.add_user("ann", "secret", "staff", PLAIN);
    db.add_log("l1", "level", "5", r#"{"elevation":3,"name":"staff","permissions":["ManagePastes","Ban"]}"#);
    db.add_log("l0", "level", "4", r#"{"elevation":-1,"name":"guest","permissions":[]}"#);
    let staff = RoleLevel {
        elevation: 3,
        name: String::from("staff"),
        permissions: vec![String::from("ManagePastes"), String::from("Ban")],
    };
    let found = by_username(&mut base, &mut db, "ann").expect("found");
    assert_eq!(found.level, staff);
    assert_eq!(
        base.cachedb.get("level:staff"),
        Some(String::from(
            r#"{"id":"l1","level":{"elevation":3,"name":"staff","permissions":["ManagePastes","Ban"]}}"#
        ))
    );
    let asked = db.asked.len();
    let again = by_username(&mut base, &mut db, "ann").expect("found");
    assert_eq!(again, found);
    assert_eq!(db.asked.len(), asked);
    let guest = level(&mut base, &mut db, "guest");
    assert_eq!(guest.id, "l0");
    assert_eq!(guest.level.elevation, -1);
}

#[test]
fn lookup_by_name_of_nobody_is_not_found() {
    let mut db = Tables::new();
    let mut base = base();
    assert_eq!(by_username(&mut base, &mut db, "ann"), Err(AuthError::NotFound));
    assert_eq!(base.cachedb.get("user:ann"), None);
    db.down = true;
    assert_eq!(by_username(&mut base, &mut db, "ann"), Err(AuthError::Other));
}

#[test]
fn a_banned_user_is_out_of_reach_on_every_path() {
    let mut db = Tables::new();
    let mut base = base();
    db.add_user(
        "bob",
        "secret",
        "banned",
        &format!(
            "{{\"about\":\"\",\"secondary_token\":\"{}\"}}",
            hash(String::from("spare"))
        ),
    );
    assert_eq!(by_hashed(&mut base, &mut db, &hash(String::from("secret"))), Err(AuthError::Banned));
    assert_eq!(by_token(&mut base, &mut db, "spare"), Err(AuthError::Banned));
    assert_eq!(by_unhashed(&mut base, &mut db, "spare"), Err(AuthError::Banned));
    assert_eq!(by_unhashed(&mut base, &mut db, "secret"), Err(AuthError::NotFound));
    assert_eq!(by_username(&mut base, &mut db, "bob"), Err(AuthError::NotFound));
    assert_eq!(base.cachedb.get("user:bob"), None);
}

#[test]
fn a_banned_row_is_refused_even_if_the_rest_is_malformed() {
    let mut db = Tables::new();
    let mut base = base();
    db.add_user("bob", "secret", "banned", "not json");
    assert_eq!(by_hashed(&mut base, &mut db, &hash(String::from("secret"))), Err(AuthError::Banned));
}

#[test]
fn a_banned_user_in_the_cache_is_refused() {
    let mut db = Tables::new();
    let mut base = base();
    let banned = UserState {
        username: String::from("bob"),
        id_hashed: String::from("ff"),
        role: String::from("banned"),
        timestamp: 1,
        metadata: plain_metadata(),
    };
    base.cachedb.set(String::from("user:bob"), banned.to_json_text().expect("written"));
    assert_eq!(by_username(&mut base, &mut db, "bob"), Err(AuthError::Banned));
    assert!(db.asked.is_empty());
}

#[test]
fn lookup_by_hashed_identifier() {
    let mut db = Tables::new();
    let mut base = base();
    db.add_user("ann", "secret", "member", PLAIN);
    let found = by_hashed(&mut base, &mut db, &hash(String::from("secret"))).expect("found");
    assert_eq!(found.user.username, "ann");
    assert_eq!(found.user.metadata, plain_metadata());
    assert_eq!(found.level, member());
    assert_eq!(by_hashed(&mut base, &mut db, "secret"), Err(AuthError::NotFound));
    assert_eq!(base.cachedb.get("user:ann"), None);
}

#[test]
fn lookup_by_credential_finds_the_user() {
    let mut db = Tables::new();
    let mut base = base();
    db.add_user("ann", "secret", "member", PLAIN);
    let found = by_unhashed(&mut base, &mut db, "secret").expect("found");
    assert_eq!(found.user.username, "ann");
    assert_eq!(
        db.asked[0],
        Statement::UserByHashedId {
            table: String::from("Users"),
            id_hashed: String::from(
                "2bb80d537b1da3e38bd30361aa855686bde0eacd7162fef6a25fe97bf527a25b"
            ),
        }
    );
}

#[test]
fn a_credential_that_is_no_identifier_is_tried_as_a_secondary_token() {
    let mut db = Tables::new();
    db.add_user("ann", "secret", "member", PLAIN);
    db.add_user(
        "cat",
        "other",
        "member",
        &format!(
            "{{\"about\":\"\",\"avatar_url\":null,\"secondary_token\":\"{}\",\"nickname\":null}}",
            hash(String::from("spare"))
        ),
    );
    let mut base_a = base();
    let by_credential = by_unhashed(&mut base_a, &mut db, "spare");
    let asked = db.asked.clone();
    db.asked.clear();
    let mut base_b = base();
    let direct = by_token(&mut base_b, &mut db, "spare");
    assert_eq!(by_credential, direct);
    assert_eq!(direct.expect("found").user.username, "cat");
    assert_eq!(asked.len(), 3);
    assert_eq!(
        asked[1],
        Statement::UserByMetadata {
            table: String::from("Users"),
            needle: format!("\"secondary_token\":\"{}\"", hash(String::from("spare"))),
        }
    );
    assert_eq!(asked[1..], db.asked[..]);
    let mut base_c = base();
    assert_eq!(by_unhashed(&mut base_c, &mut db, "unknown"), Err(AuthError::NotFound));
    assert_eq!(by_token(&mut base_c, &mut db, "unknown"), Err(AuthError::NotFound));
}

#[test]
fn a_failing_database_is_other_on_both_tries() {
    let mut db = Tables::new();
    let mut base = base();
    db.down = true;
    assert_eq!(by_unhashed(&mut base, &mut db, "secret"), Err(AuthError::Other));
    assert_eq!(db.asked.len(), 2);
    assert_eq!(by_hashed(&mut base, &mut db, "ff"), Err(AuthError::Other));
    assert_eq!(by_token(&mut base, &mut db, "spare"), Err(AuthError::Other));
}

#[test]
fn malformed_metadata_is_a_value_error() {
    let mut db = Tables::new();
    let mut base = base();
    db.add_user("ann", "a", "member", "not json");
    db.add_user("ben", "b", "member", r#"{"avatar_url":null}"#);
    db.add_user("cy", "c", "member", r#"{"about":"x","nickname":7}"#);
    db.users.push([
        String::from("dee"),
        hash(String::from("d")),
        String::from("member"),
        String::from("soon"),
        String::from(PLAIN),
    ]);
    for name in ["ann", "ben", "cy", "dee"] {
        assert_eq!(by_username(&mut base, &mut db, name), Err(AuthError::ValueError), "{name}");
        assert_eq!(base.cachedb.get(&format!("user:{name}")), None);
    }
    for credential in ["a", "b", "c", "d"] {
        assert_eq!(
            by_hashed(&mut base, &mut db, &hash(String::from(credential))),
            Err(AuthError::ValueError)
        );
    }
}

#[test]
fn an_unknown_role_is_a_member_every_time_and_is_never_cached() {
    let mut db = Tables::new();
    let mut base = base();
    db.add_log("l1", "level", "5", r#"{"elevation":3,"name":"staff","permissions":[]}"#);
    for _ in 0..3 {
        let found = level(&mut base, &mut db, "wizard");
        assert_eq!(found.id, "");
        assert_eq!(found.level, member());
        assert_eq!(base.cachedb.get("level:wizard"), None);
    }
    assert_eq!(db.asked.len(), 3);
    assert!(db.logs.iter().all(|l| !l[3].contains("wizard")));
    assert_eq!(db.logs.len(), 1);
}

#[test]
fn a_role_that_gets_defined_later_is_found_then() {
    let mut db = Tables::new();
    let mut base = base();
    assert_eq!(level(&mut base, &mut db, "staff").level, member());
    db.add_log("l1", "level", "5", r#"{"elevation":3,"name":"staff","permissions":[]}"#);
    let found = level(&mut base, &mut db, "staff");
    assert_eq!(found.id, "l1");
    assert_eq!(found.level.elevation, 3);
    let asked = db.asked.len();
    assert_eq!(level(&mut base, &mut db, "staff").level.elevation, 3);
    assert_eq!(db.asked.len(), asked);
}

#[test]
fn a_level_that_cannot_be_read_is_a_member_and_is_not_cached() {
    let mut db = Tables::new();
    let mut base = base();
    db.add_log("l1", "level", "5", r#"{"name":"staff","permissions":[]}"#);
    assert_eq!(level(&mut base, &mut db, "staff").level, member());
    assert_eq!(base.cachedb.get("level:staff"), None);
    db.down = true;
    assert_eq!(level(&mut base, &mut db, "staff").level, member());
    assert_eq!(base.cachedb.get("level:staff"), None);
}

#[test]
fn the_default_level_is_a_member_without_identifier() {
    let l = RoleLevelLog::default();
    assert_eq!(l.id, "");
    assert_eq!(l.level, member());
}

#[test]
fn user_and_level_json_round_trip() {
    let user = UserState {
        username: String::from("an\"n"),
        id_hashed: String::from("ff"),
        role: String::from("member"),
        timestamp: 7,
        metadata: UserMetadata {
            about: String::from("line\nbreak"),
            avatar_url: None,
            secondary_token: Some(String::from("tok")),
            nickname: Some(String::new()),
        },
    };
    let text = user.to_json_text().expect("written");
    assert_eq!(
        text,
        r#"{"username":"an\"n","id_hashed":"ff","role":"member","timestamp":7,"metadata":{"about":"line\nbreak","avatar_url":null,"secondary_token":"tok","nickname":""}}"#
    );
    assert_eq!(UserState::from_json_text(&text), Some(user.clone()));
    assert_eq!(user.cache_text(), Some(text));
    let level = RoleLevelLog {
        id: String::from("l1"),
        level: RoleLevel {
            elevation: -5,
            name: String::from("low"),
            permissions: vec![String::from("a"), String::from("b")],
        },
    };
    let text = level.to_json_text().expect("written");
    assert_eq!(text, r#"{"id":"l1","level":{"elevation":-5,"name":"low","permissions":["a","b"]}}"#);
    assert!(RoleLevelLog::from_json_text(&text).expect("read").same(&level));
    assert_eq!(level.cache_text(), Some(text));
}

#[test]
fn a_timestamp_beyond_64_bits_is_returned_but_not_cached() {
    let mut db = Tables::new();
    let mut base = base();
    db.users.push([
        String::from("old"),
        hash(String::from("o")),
        String::from("member"),
        String::from("340282366920938463463374607431768211455"),
        String::from(PLAIN),
    ]);
    let found = by_username(&mut base, &mut db, "old").expect("found");
    assert_eq!(found.user.timestamp, u128::MAX);
    assert_eq!(base.cachedb.get("user:old"), None);
    assert_eq!(by_username(&mut base, &mut db, "old").expect("found"), found);
}

#[test]
fn auth_error_messages() {
    assert_eq!(AuthError::ValueError.to_string(), "One of the field values given is invalid.");
    assert_eq!(AuthError::NotFound.to_string(), "User could not be found.");
    assert_eq!(AuthError::Banned.to_string(), "User is banned.");
    assert_eq!(AuthError::Other.to_string(), "An unspecified error has occured.");
    let envelope: DefaultReturn<u32> = AuthError::Banned.into_return();
    assert!(!envelope.success);
    assert_eq!(envelope.message, "User is banned.");
    assert_eq!(envelope.payload, 0);
}

// ---- the notification store ----

#[test]
fn a_page_of_notifications_holds_fifty_newest_first() {
    let mut db = Tables::new();
    let mut base = base();
    db.add_user("ann", "secret", "member", PLAIN);
    db.add_user("bob", "hidden", "member", PLAIN);
    let store = notifications();
    for i in 0..51u128 {
        let first = store.push_user_notification_with(
            &base,
            notify("ann", &format!("n{i}")),
            format!("id{i}"),
            1_700_000_000_000 + (i * 37) % 51,
        );
        assert_eq!(push(&mut base, &mut db, first), Ok(format!("id{i}")));
    }
    let first = store.push_user_notification(&base, notify("bob", "for bob"));
    push(&mut base, &mut db, first).expect("pushed");
    let page = list(&base, &mut db, "ann", Some(0)).expect("listed");
    assert_eq!(page.len(), 50);
    for pair in page.windows(2) {
        assert!(pair[0].timestamp > pair[1].timestamp);
    }
    assert_eq!(page[0].timestamp, 1_700_000_000_050);
    assert_eq!(page[49].timestamp, 1_700_000_000_001);
    assert!(page.iter().all(|l| l.logtype == "notification"));
    assert!(page.iter().all(|l| l.content.contains("\"user\":\"ann\"")));
    assert_eq!(list(&base, &mut db, "ann", None).expect("listed"), page);
    let rest = list(&base, &mut db, "ann", Some(50)).expect("listed");
    assert_eq!(rest.len(), 1);
    assert_eq!(rest[0].timestamp, 1_700_000_000_000);
    assert_eq!(list(&base, &mut db, "bob", None).expect("listed").len(), 1);
    assert_eq!(list(&base, &mut db, "cy", None).expect("listed").len(), 0);
}

#[test]
fn the_listing_statement_asks_for_fifty() {
    let store = notifications();
    assert_eq!(
        store.get_user_notifications(String::from("ann"), Some(7)),
        Statement::LogsByContent {
            table: String::from("Logs"),
            logtype: String::from("notification"),
            needle: String::from("\"user\":\"ann\""),
            limit: 50,
            offset: 7,
        }
    );
    assert_eq!(
        store.user_has_notification(String::from("ann")),
        Statement::LogsByContent {
            table: String::from("Logs"),
            logtype: String::from("notification"),
            needle: String::from("\"user\":\"ann\""),
            limit: 1,
            offset: 0,
        }
    );
}

#[test]
fn a_user_has_a_notification_once_one_is_pushed() {
    let mut db = Tables::new();
    let mut base = base();
    db.add_user("ann", "secret", "member", PLAIN);
    assert_eq!(has_notification(&mut db, "ann"), Ok(false));
    let first = notifications().push_user_notification(&base, notify("ann", "hello"));
    push(&mut base, &mut db, first).expect("pushed");
    assert_eq!(has_notification(&mut db, "ann"), Ok(true));
    assert_eq!(has_notification(&mut db, "bob"), Ok(false));
    db.down = true;
    assert_eq!(has_notification(&mut db, "ann"), Err(NotificationError::Other));
    assert_eq!(list(&base, &mut db, "ann", None), Err(NotificationError::Other));
}

#[test]
fn a_notification_is_stored_as_json_in_a_log_entry() {
    let mut db = Tables::new();
    let mut base = base();
    db.add_user("ann", "secret", "member", PLAIN);
    let before = unix_epoch_timestamp();
    let first = notifications().push_user_notification(&base, notify("ann", "say \"hi\""));
    let id = push(&mut base, &mut db, first).expect("pushed");
    let after = unix_epoch_timestamp();
    assert_eq!(id.len(), 64);
    let entry = get(&mut base, &mut db, &id).expect("found");
    assert_eq!(entry.logtype, "notification");
    assert_eq!(
        entry.content,
        r#"{"service":"mail","user":"ann","content":"say \"hi\"","address":"/inbox"}"#
    );
    assert!(before <= entry.timestamp && entry.timestamp <= after);
}

#[test]
fn a_notification_for_nobody_is_refused_with_the_reason() {
    let mut db = Tables::new();
    let mut base = base();
    db.add_user("bob", "secret", "banned", PLAIN);
    let store = notifications();
    let first = store.push_user_notification(&base, notify("ann", "hello"));
    assert_eq!(push(&mut base, &mut db, first), Err(PushError::User(AuthError::NotFound)));
    let first = store.push_user_notification(&base, notify("bob", "hello"));
    assert_eq!(push(&mut base, &mut db, first), Err(PushError::User(AuthError::NotFound)));
    assert!(db.logs.is_empty());
    assert!(db.asked.iter().all(|s| !matches!(s, Statement::InsertLog { .. })));
    db.down = true;
    let first = store.push_user_notification(&base, notify("ann", "hello"));
    assert_eq!(push(&mut base, &mut db, first), Err(PushError::User(AuthError::Other)));
}

#[test]
fn a_failed_insert_of_a_notification_is_reported() {
    let mut db = Tables::new();
    let mut base = base();
    db.add_user("ann", "secret", "staff", PLAIN);
    db.add_log("l1", "level", "5", r#"{"elevation":3,"name":"staff","permissions":[]}"#);
    let store = notifications();
    by_username(&mut base, &mut db, "ann").expect("found");
    let first = store.push_user_notification(&base, notify("ann", "hello"));
    let pending = match first {
        Step::Ask(p, Statement::InsertLog { .. }) => p,
        _ => panic!("the user and the level are cached, so the insert comes first"),
    };
    match store.push_user_notification_resume(&mut base, pending, Reply::Failed) {
        Step::Done(r) => assert_eq!(r, Err(PushError::Log(LogError::Other))),
        Step::Ask(..) => panic!("the creation is over"),
    }
}

#[test]
fn notifications_are_found_by_literal_containment() {
    let mut db = Tables::new();
    let mut base = base();
    db.add_user("ann", "secret", "member", PLAIN);
    db.add_user("an", "other", "member", PLAIN);
    let store = notifications();
    let first = store.push_user_notification(&base, notify("ann", "plain"));
    push(&mut base, &mut db, first).expect("pushed");
    // A name that is a prefix of another does not match: the needle ends
    // with the closing quote.
    assert_eq!(list(&base, &mut db, "an", None).expect("listed").len(), 0);
    // Text that quotes the needle does not match either: inside a JSON
    // string its quotes are escaped.
    let first =
        store.push_user_notification(&base, notify("an", "quoting \"user\":\"ann\" in the text"));
    push(&mut base, &mut db, first).expect("pushed");
    assert_eq!(list(&base, &mut db, "an", None).expect("listed").len(), 1);
    assert_eq!(list(&base, &mut db, "ann", None).expect("listed").len(), 1);
    // But the match is on the text, not on the structure: an entry for
    // somebody else that holds the needle in a nested object is listed too.
    db.add_log(
        "x",
        "notification",
        "9",
        r#"{"service":"s","user":"an","content":"c","address":"a","about":{"user":"ann"}}"#,
    );
    let listed = list(&base, &mut db, "ann", None).expect("listed");
    assert_eq!(listed.len(), 2);
    assert!(listed.iter().any(|l| l.id == "x"));
}

#[test]
fn a_listing_of_notifications_with_a_malformed_row_is_a_value_error() {
    let mut db = Tables::new();
    let base = base();
    db.add_log("a", "notification", "1", r#"{"user":"ann"}"#);
    assert_eq!(list(&base, &mut db, "ann", None).map(|l| l.len()), Ok(1));
    db.add_log("b", "notification", "later", r#"{"user":"ann"}"#);
    assert_eq!(list(&base, &mut db, "ann", None), Err(NotificationError::ValueError));
    let store = notifications();
    assert_eq!(
        store.get_user_notifications_resume(&base, Reply::NoRow),
        Err(NotificationError::Other)
    );
    assert_eq!(store.user_has_notification_resume(Reply::Done), Err(NotificationError::Other));
}

#[test]
fn a_log_entry_is_read_by_its_type() {
    let note = Log {
        id: String::from("n1"),
        logtype: String::from("notification"),
        timestamp: 1,
        content: notify("ann", "hello").to_json_text().expect("written"),
    };
    assert_eq!(Notification::from_log(&note), Some(notify("ann", "hello")));
    assert_eq!(RoleLevelLog::from_log(&note), None);
    let level = Log {
        id: String::from("l1"),
        logtype: String::from("level"),
        timestamp: 2,
        content: String::from(r#"{"elevation":2,"name":"staff","permissions":["Ban"]}"#),
    };
    assert_eq!(
        RoleLevelLog::from_log(&level),
        Some(RoleLevelLog {
            id: String::from("l1"),
            level: RoleLevel {
                elevation: 2,
                name: String::from("staff"),
                permissions: vec![String::from("Ban")],
            },
        })
    );
    assert_eq!(Notification::from_log(&level), None);
    let audit = Log {
        id: String::from("a1"),
        logtype: String::from("audit"),
        timestamp: 3,
        content: level.content.clone(),
    };
    assert_eq!(RoleLevelLog::from_log(&audit), None);
    assert_eq!(Notification::from_log(&audit), None);
    assert_eq!(Notification::from_json_text(r#"{"service":"s","user":"u","content":"c"}"#), None);
    assert_eq!(
        Notification::from_json_text(r#"{"address":"a","service":"s","user":"u","content":"c"}"#),
        Some(Notification {
            service: String::from("s"),
            user: String::from("u"),
            content: String::from("c"),
            address: String::from("a"),
        })
    );
}

#[test]
fn notification_error_messages() {
    assert_eq!(
        NotificationError::ValueError.to_string(),
        "One of the field values given is invalid."
    );
    assert_eq!(
        NotificationError::NotFound.to_string(),
        "No asset with this selector could be found."
    );
    assert_eq!(NotificationError::Other.to_string(), "An unspecified error has occured");
    let envelope: DefaultReturn<Vec<Log>> = NotificationError::Other.into_return();
    assert!(!envelope.success);
    assert_eq!(envelope.message, "An unspecified error has occured");
    assert!(envelope.payload.is_empty());
}
