//! What ties the creation of a notification to the listing that finds it.
use vstd::prelude::*;
use crate::db::special::notification_db::{notification_text, user_needle, NotificationView};
use crate::json::json_quote;

verus! {

/// `needle` stands somewhere in `text`.
pub open spec fn contains_text(text: Seq<char>, needle: Seq<char>) -> bool {
    exists|i: int|
        0 <= i && i + needle.len() <= text.len() && #[trigger] text.subrange(
            i,
            i + needle.len() as int,
        ) == needle
}

/// A notification is found by the listing of its user. Where the user's
/// name is written in JSON as it stands, between quotes and without an
/// escape, the content of the notification's log entry contains what the
/// listing for that user looks for.
pub proof fn law_notification_names_its_user(n: NotificationView)
    requires
        json_quote(n.user) == Some("\""@ + n.user + "\""@),
        notification_text(n) is Some,
    ensures
        contains_text(notification_text(n)->0, user_needle(n.user)),
{
    reveal_strlit(",\"user\":");
    reveal_strlit("\"user\":\"");
    reveal_strlit("\"");
    let text = notification_text(n)->0;
    let needle = user_needle(n.user);
    let service = json_quote(n.service)->0;
    let start = ("{\"service\":"@ + service).len() as int + 1;
    assert(needle.len() == 8 + n.user.len() + 1);
    assert(text.subrange(start, start + needle.len() as int) =~= needle);
}

} // verus!
