//! What holds of the identity store whatever the database answers.
//!
//! A lookup never changes the database, so to a lookup the database is a
//! function from statements to replies. The laws speak of a lookup run to
//! its end against such a function: each statement the lookup asks is
//! answered, and the lookup goes on with the answer, until it is done.
use vstd::prelude::*;
use crate::db::db::{lookup, project, ReplyView, StepView};
use crate::db::special::auth_db::{
    cache_after_level, cache_after_user, cache_with_user, cached_level, cached_user,
    default_level_log, hashed_start, is_banned, level_of_reply, level_result,
    level_start, level_statement, token_needle, token_start, unhashed_start, user_next,
    user_of_reply, username_start, AuthError, FullUserView, RoleLevelLogView, UserLookupView,
    UserView,
};
use crate::db::sql::StatementView;
use crate::laws::cache::law_kinds_of_keys_are_apart;
use crate::utility::hash_text;

verus! {

/// A lookup of a level run to its end against a database that is only
/// read: the cache it leaves and the level it returns.
pub open spec fn level_outcome(
    logs_table: Seq<char>,
    cache: Map<Seq<char>, Seq<char>>,
    name: Seq<char>,
    answers: spec_fn(StatementView) -> ReplyView,
) -> (Map<Seq<char>, Seq<char>>, RoleLevelLogView) {
    match level_start(logs_table, cache, name) {
        StepView::Done(l) => (cache, l),
        StepView::Ask(pending, statement) => (
            cache_after_level(cache, pending, answers(statement)),
            level_result(answers(statement)),
        ),
    }
}

/// The level of a role that nothing defines is the level of a plain member,
/// on every call, and is never cached. Where the cache holds no level for
/// the role and the database answers with none, the lookup returns the
/// default and leaves the cache exactly as it was; so the same holds of the
/// next lookup, and of every one after it.
pub proof fn law_unknown_role_is_member(
    logs_table: Seq<char>,
    cache: Map<Seq<char>, Seq<char>>,
    name: Seq<char>,
    answers: spec_fn(StatementView) -> ReplyView,
)
    requires
        cached_level(cache, name) is None,
        level_of_reply(answers(level_statement(logs_table, name))) is None,
    ensures
        level_outcome(logs_table, cache, name, answers) == (cache, default_level_log()),
{
}

/// A database that holds no entry for a role answers the question for its
/// level with no rows, and that reply defines no level.
pub proof fn law_no_rows_define_no_level()
    ensures
        level_of_reply(ReplyView::Rows(Seq::empty())) is None,
        level_of_reply(ReplyView::Failed) is None,
{
}

/// A level that was read from the database is served by the cache from
/// then on: after a lookup that found a level, the cache holds either that
/// level under the role's name or what it held before.
pub proof fn law_level_is_cached_as_read(
    cache: Map<Seq<char>, Seq<char>>,
    name: Seq<char>,
    reply: ReplyView,
)
    ensures
        cached_level(cache_after_level(cache, name, reply), name) == level_of_reply(reply)
            || cache_after_level(cache, name, reply) == cache,
{
}

/// The statements of a lookup answered one after the other by a database
/// that is only read, for at most `fuel` statements: the cache at the end,
/// and the step the lookup is left at.
pub open spec fn run_user(
    table: Seq<char>,
    logs_table: Seq<char>,
    cache: Map<Seq<char>, Seq<char>>,
    step: StepView<UserLookupView, Result<FullUserView, AuthError>>,
    answers: spec_fn(StatementView) -> ReplyView,
    fuel: nat,
) -> (Map<Seq<char>, Seq<char>>, StepView<UserLookupView, Result<FullUserView, AuthError>>)
    decreases fuel,
{
    match step {
        StepView::Ask(pending, statement) => if fuel == 0 {
            (cache, step)
        } else {
            run_user(
                table,
                logs_table,
                cache_after_user(cache, pending, answers(statement)),
                user_next(table, logs_table, cache, pending, answers(statement)),
                answers,
                (fuel - 1) as nat,
            )
        },
        StepView::Done(_) => (cache, step),
    }
}

/// A lookup of a user run to its end. No lookup asks more than three
/// statements: the row by identifier, the row by secondary token, and the
/// level of the role.
pub open spec fn user_outcome(
    table: Seq<char>,
    logs_table: Seq<char>,
    cache: Map<Seq<char>, Seq<char>>,
    start: StepView<UserLookupView, Result<FullUserView, AuthError>>,
    answers: spec_fn(StatementView) -> ReplyView,
) -> (Map<Seq<char>, Seq<char>>, StepView<UserLookupView, Result<FullUserView, AuthError>>) {
    run_user(table, logs_table, cache, start, answers, 3)
}

/// One of the ways a lookup of a user starts.
pub open spec fn is_user_start(
    table: Seq<char>,
    logs_table: Seq<char>,
    cache: Map<Seq<char>, Seq<char>>,
    start: StepView<UserLookupView, Result<FullUserView, AuthError>>,
) -> bool {
    ||| exists|hashed: Seq<char>| start == hashed_start(table, hashed)
    ||| exists|unhashed: Seq<char>| start == unhashed_start(table, unhashed)
    ||| exists|unhashed: Seq<char>| start == token_start(table, unhashed)
    ||| exists|username: Seq<char>| start == username_start(table, logs_table, cache, username)
}

/// A step that never hands out a banned user: a finished lookup that
/// succeeded holds a user who is not banned, and so does a lookup that only
/// waits for the level.
pub open spec fn never_banned(
    step: StepView<UserLookupView, Result<FullUserView, AuthError>>,
) -> bool {
    match step {
        StepView::Done(Ok(full)) => !is_banned(full.user.role),
        StepView::Ask(UserLookupView::Level { user }, _) => !is_banned(user.role),
        _ => true,
    }
}

/// A user read from a reply is never banned.
proof fn lemma_read_user_not_banned(reply: ReplyView, banned: AuthError)
    ensures
        user_of_reply(reply, banned) matches Ok(u) ==> !is_banned(u.role),
{
}

/// Answering a statement keeps a lookup from handing out a banned user.
proof fn lemma_next_never_banned(
    table: Seq<char>,
    logs_table: Seq<char>,
    cache: Map<Seq<char>, Seq<char>>,
    pending: UserLookupView,
    statement: StatementView,
    reply: ReplyView,
)
    requires
        never_banned(StepView::Ask(pending, statement)),
    ensures
        never_banned(user_next(table, logs_table, cache, pending, reply)),
{
    lemma_read_user_not_banned(reply, AuthError::Banned);
    lemma_read_user_not_banned(reply, AuthError::NotFound);
}

/// However far a lookup is run, it never hands out a banned user.
proof fn lemma_run_never_banned(
    table: Seq<char>,
    logs_table: Seq<char>,
    cache: Map<Seq<char>, Seq<char>>,
    step: StepView<UserLookupView, Result<FullUserView, AuthError>>,
    answers: spec_fn(StatementView) -> ReplyView,
    fuel: nat,
)
    requires
        never_banned(step),
    ensures
        never_banned(run_user(table, logs_table, cache, step, answers, fuel).1),
    decreases fuel,
{
    match step {
        StepView::Ask(pending, statement) => {
            if fuel > 0 {
                lemma_next_never_banned(
                    table,
                    logs_table,
                    cache,
                    pending,
                    statement,
                    answers(statement),
                );
                lemma_run_never_banned(
                    table,
                    logs_table,
                    cache_after_user(cache, pending, answers(statement)),
                    user_next(table, logs_table, cache, pending, answers(statement)),
                    answers,
                    (fuel - 1) as nat,
                );
            }
        },
        StepView::Done(_) => {},
    }
}

/// Every lookup of a user ends after at most three statements.
pub proof fn law_lookup_ends(
    table: Seq<char>,
    logs_table: Seq<char>,
    cache: Map<Seq<char>, Seq<char>>,
    start: StepView<UserLookupView, Result<FullUserView, AuthError>>,
    answers: spec_fn(StatementView) -> ReplyView,
)
    requires
        is_user_start(table, logs_table, cache, start),
    ensures
        user_outcome(table, logs_table, cache, start, answers).1 is Done,
{
    reveal_with_fuel(run_user, 4);
}

/// A banned user is out of reach on every path. Whatever the cache holds
/// and whatever the database answers, a lookup by hashed identifier, by
/// credential, by secondary token or by name that succeeds returns a user
/// whose role is not `banned`.
pub proof fn law_banned_user_is_unreachable(
    table: Seq<char>,
    logs_table: Seq<char>,
    cache: Map<Seq<char>, Seq<char>>,
    start: StepView<UserLookupView, Result<FullUserView, AuthError>>,
    answers: spec_fn(StatementView) -> ReplyView,
)
    requires
        is_user_start(table, logs_table, cache, start),
    ensures
        user_outcome(table, logs_table, cache, start, answers).1 matches StepView::Done(Ok(full))
            ==> !is_banned(full.user.role),
{
    assert(never_banned(start));
    lemma_run_never_banned(table, logs_table, cache, start, answers, 3);
}

/// A banned row is refused where it is read: a reply whose row has the role
/// `banned` is the error the path reports for a banned user, however well
/// formed the rest of the row is.
pub proof fn law_banned_row_is_refused(reply: ReplyView, banned: AuthError)
    requires
        reply matches ReplyView::Row(raw) && project(raw) matches Some(row) && lookup(
            row,
            "role"@,
        ) matches Some(role) && is_banned(role),
    ensures
        user_of_reply(reply, banned) == Err::<UserView, AuthError>(banned),
{
}

/// A credential that is no identifier is a secondary token. Where the
/// lookup of the credential's digest as a hashed identifier fails, the
/// lookup by credential ends exactly as the lookup by secondary token of the
/// same credential does, with the same outcome and the same cache.
pub proof fn law_credential_falls_back_to_token(
    table: Seq<char>,
    logs_table: Seq<char>,
    cache: Map<Seq<char>, Seq<char>>,
    unhashed: Seq<char>,
    answers: spec_fn(StatementView) -> ReplyView,
)
    requires
        user_of_reply(
            answers(StatementView::UserByHashedId { table, id_hashed: hash_text(unhashed) }),
            AuthError::Banned,
        ) is Err,
    ensures
        user_outcome(table, logs_table, cache, unhashed_start(table, unhashed), answers)
            == user_outcome(table, logs_table, cache, token_start(table, unhashed), answers),
{
    reveal_with_fuel(run_user, 4);
}

/// The user that a lookup by name finds: the one the cache holds under the
/// name, refused if banned, or else the one the database answers with.
pub open spec fn user_held(
    table: Seq<char>,
    cache: Map<Seq<char>, Seq<char>>,
    username: Seq<char>,
    answers: spec_fn(StatementView) -> ReplyView,
) -> Result<UserView, AuthError> {
    match cached_user(cache, username) {
        Some(u) => if is_banned(u.role) {
            Err(AuthError::Banned)
        } else {
            Ok(u)
        },
        None => user_of_reply(
            answers(StatementView::UserByUsername { table, username }),
            AuthError::NotFound,
        ),
    }
}

/// The level that a lookup resolves for a role: the one the cache holds, or
/// else the one the database answers with.
pub open spec fn level_held(
    logs_table: Seq<char>,
    cache: Map<Seq<char>, Seq<char>>,
    role: Seq<char>,
    answers: spec_fn(StatementView) -> ReplyView,
) -> RoleLevelLogView {
    match cached_level(cache, role) {
        Some(l) => l,
        None => level_result(answers(level_statement(logs_table, role))),
    }
}

/// Caching a user does not change which levels the cache holds, and caching
/// a level does not change which users it holds.
proof fn lemma_caches_apart(
    cache: Map<Seq<char>, Seq<char>>,
    username: Seq<char>,
    u: UserView,
    name: Seq<char>,
    reply: ReplyView,
)
    ensures
        cached_level(cache_with_user(cache, username, u), name) == cached_level(cache, name),
        cached_user(cache_after_level(cache, name, reply), username) == cached_user(
            cache,
            username,
        ),
{
    law_kinds_of_keys_are_apart(username, name, Seq::empty());
}

/// A lookup by name returns the user with the level of the user's role,
/// whether the cache or the database serves it. It ends with the user that
/// the cache holds under the name or, where it holds none, that the
/// database answers with, together with the level that the cache holds for
/// the role or, where it holds none, that the database answers with; and it
/// fails exactly where there is no such user.
pub proof fn law_lookup_by_name_returns_the_user(
    table: Seq<char>,
    logs_table: Seq<char>,
    cache: Map<Seq<char>, Seq<char>>,
    username: Seq<char>,
    answers: spec_fn(StatementView) -> ReplyView,
)
    ensures
        user_outcome(
            table,
            logs_table,
            cache,
            username_start(table, logs_table, cache, username),
            answers,
        ).1 == StepView::<UserLookupView, Result<FullUserView, AuthError>>::Done(
            match user_held(table, cache, username, answers) {
                Ok(user) => Ok(
                    FullUserView {
                        user,
                        level: level_held(logs_table, cache, user.role, answers).level,
                    },
                ),
                Err(e) => Err(e),
            },
        ),
{
    reveal_with_fuel(run_user, 4);
    match user_held(table, cache, username, answers) {
        Ok(user) => {
            lemma_caches_apart(cache, username, user, user.role, ReplyView::Done);
        },
        Err(_) => {},
    }
}

/// A lookup by hashed identifier returns the user that the database
/// answers with, together with the level that the cache holds for the
/// user's role or, where it holds none, that the database answers with. It
/// fails exactly where the reply is no user, and `Banned` where the row's
/// role is `banned`. The cache is not asked for the user.
pub proof fn law_lookup_by_hashed_returns_the_user(
    table: Seq<char>,
    logs_table: Seq<char>,
    cache: Map<Seq<char>, Seq<char>>,
    hashed: Seq<char>,
    answers: spec_fn(StatementView) -> ReplyView,
)
    ensures
        user_outcome(table, logs_table, cache, hashed_start(table, hashed), answers).1
            == StepView::<UserLookupView, Result<FullUserView, AuthError>>::Done(
            match user_of_reply(
                answers(StatementView::UserByHashedId { table, id_hashed: hashed }),
                AuthError::Banned,
            ) {
                Ok(user) => Ok(
                    FullUserView {
                        user,
                        level: level_held(logs_table, cache, user.role, answers).level,
                    },
                ),
                Err(e) => Err(e),
            },
        ),
{
    reveal_with_fuel(run_user, 4);
}

/// A lookup by secondary token returns the user whose metadata holds the
/// token's digest, as the database answers, together with the level of the
/// user's role; it fails exactly where the reply is no user.
pub proof fn law_lookup_by_token_returns_the_user(
    table: Seq<char>,
    logs_table: Seq<char>,
    cache: Map<Seq<char>, Seq<char>>,
    unhashed: Seq<char>,
    answers: spec_fn(StatementView) -> ReplyView,
)
    ensures
        user_outcome(table, logs_table, cache, token_start(table, unhashed), answers).1
            == StepView::<UserLookupView, Result<FullUserView, AuthError>>::Done(
            match user_of_reply(
                answers(
                    StatementView::UserByMetadata {
                        table,
                        needle: token_needle(hash_text(unhashed)),
                    },
                ),
                AuthError::Banned,
            ) {
                Ok(user) => Ok(
                    FullUserView {
                        user,
                        level: level_held(logs_table, cache, user.role, answers).level,
                    },
                ),
                Err(e) => Err(e),
            },
        ),
{
    reveal_with_fuel(run_user, 4);
}

/// Looking a user up by name a second time gives the same. Once a lookup
/// by name succeeded, the same lookup run again right away, on the cache
/// the first one left and against the same database, returns the same user
/// with the same level and leaves the cache as it found it, whether the
/// first one was served by the cache or by the database.
pub proof fn law_lookup_by_name_repeats(
    table: Seq<char>,
    logs_table: Seq<char>,
    cache: Map<Seq<char>, Seq<char>>,
    username: Seq<char>,
    answers: spec_fn(StatementView) -> ReplyView,
)
    ensures
        ({
            let first = user_outcome(
                table,
                logs_table,
                cache,
                username_start(table, logs_table, cache, username),
                answers,
            );
            let second = user_outcome(
                table,
                logs_table,
                first.0,
                username_start(table, logs_table, first.0, username),
                answers,
            );
            first.1 matches StepView::Done(Ok(_)) ==> second == first
        }),
{
    reveal_with_fuel(run_user, 4);
    let first = user_outcome(
        table,
        logs_table,
        cache,
        username_start(table, logs_table, cache, username),
        answers,
    );
    match user_held(table, cache, username, answers) {
        Ok(user) => {
            let level_reply = answers(level_statement(logs_table, user.role));
            let with_user = cache_with_user(cache, username, user);
            lemma_caches_apart(cache, username, user, user.role, level_reply);
            lemma_caches_apart(with_user, username, user, user.role, level_reply);
            law_kinds_of_keys_are_apart(username, user.role, Seq::empty());
            lemma_read_user_not_banned(
                answers(StatementView::UserByUsername { table, username }),
                AuthError::NotFound,
            );
            law_lookup_by_name_returns_the_user(table, logs_table, cache, username, answers);
            law_lookup_by_name_returns_the_user(table, logs_table, first.0, username, answers);
        },
        Err(_) => {
            law_lookup_by_name_returns_the_user(table, logs_table, cache, username, answers);
        },
    }
}

} // verus!
