//! What holds of the keys under which the stores cache.
use vstd::prelude::*;
use crate::db::special::auth_db::{level_key, user_key};
use crate::db::special::log_db::log_key;

verus! {

/// The keys of the three kinds never meet: whatever the name of a user, the
/// name of a role and the identifier of a log entry are, their keys are
/// three different keys.
pub proof fn law_kinds_of_keys_are_apart(username: Seq<char>, role: Seq<char>, id: Seq<char>)
    ensures
        user_key(username) != level_key(role),
        user_key(username) != log_key(id),
        level_key(role) != log_key(id),
{
    reveal_strlit("user:");
    reveal_strlit("level:");
    reveal_strlit("log:");
    assert(user_key(username)[0] == 'u');
    assert(level_key(role)[0] == 'l');
    assert(user_key(username)[1] == 's');
    assert(level_key(role)[1] == 'e');
    assert(log_key(id)[0] == 'l');
    assert(log_key(id)[1] == 'o');
}

/// Within a kind, different names have different keys.
pub proof fn law_keys_tell_names_apart(a: Seq<char>, b: Seq<char>)
    requires
        a != b,
    ensures
        user_key(a) != user_key(b),
        level_key(a) != level_key(b),
        log_key(a) != log_key(b),
{
    let u = "user:"@.len() as int;
    assert(user_key(a).subrange(u, user_key(a).len() as int) =~= a);
    assert(user_key(b).subrange(u, user_key(b).len() as int) =~= b);
    let l = "level:"@.len() as int;
    assert(level_key(a).subrange(l, level_key(a).len() as int) =~= a);
    assert(level_key(b).subrange(l, level_key(b).len() as int) =~= b);
    let g = "log:"@.len() as int;
    assert(log_key(a).subrange(g, log_key(a).len() as int) =~= a);
    assert(log_key(b).subrange(g, log_key(b).len() as int) =~= b);
}

} // verus!
