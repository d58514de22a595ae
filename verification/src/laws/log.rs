//! What holds of the log store against a database that keeps what it is
//! given.
//!
//! The log store never sees the table; it sees replies. The laws here put a
//! table behind the replies: a sequence of entries that answers a lookup
//! with the first entry of the identifier asked for, takes a new entry at
//! its end, and edits or drops the entries of an identifier. They say what
//! the operations of the store, run to their end against such a table, do
//! to the table and to the cache.
use vstd::prelude::*;
use crate::db::db::{lookup, project, RawValueView, ReplyView, StepView};
use crate::db::special::log_db::{
    cache_after_change, cache_after_lookup, cache_with_log, cached_log, change_next, change_start,
    log_key, log_of_reply, log_of_row, logs_of_reply, lookup_start, LogChangeView, LogError,
    LogView,
};
use crate::db::sql::StatementView;
use crate::laws::cache::law_keys_tell_names_apart;
use crate::text::{column_number, decimal, lemma_decimal_round_trip};

verus! {

/// The row that the table hands back for an entry: the four columns of the
/// log, each as text.
pub open spec fn log_row(l: LogView) -> Seq<(Seq<char>, RawValueView)> {
    seq![
        ("id"@, RawValueView::Text(l.id)),
        ("logtype"@, RawValueView::Text(l.logtype)),
        ("timestamp"@, RawValueView::Text(decimal(l.timestamp as nat))),
        ("content"@, RawValueView::Text(l.content)),
    ]
}

/// The first entry of the table that has the identifier.
pub open spec fn find_log(rows: Seq<LogView>, id: Seq<char>) -> Option<LogView>
    decreases rows.len(),
{
    if rows.len() == 0 {
        None
    } else {
        match find_log(rows.drop_last(), id) {
            Some(l) => Some(l),
            None => if rows.last().id == id {
                Some(rows.last())
            } else {
                None
            },
        }
    }
}

/// The table with the content of every entry of the identifier replaced.
pub open spec fn rows_edited(rows: Seq<LogView>, id: Seq<char>, content: Seq<char>) -> Seq<LogView>
    decreases rows.len(),
{
    if rows.len() == 0 {
        rows
    } else {
        rows_edited(rows.drop_last(), id, content).push(
            if rows.last().id == id {
                LogView { content, ..rows.last() }
            } else {
                rows.last()
            },
        )
    }
}

/// The table without the entries of the identifier.
pub open spec fn rows_without(rows: Seq<LogView>, id: Seq<char>) -> Seq<LogView>
    decreases rows.len(),
{
    if rows.len() == 0 {
        rows
    } else if rows.last().id == id {
        rows_without(rows.drop_last(), id)
    } else {
        rows_without(rows.drop_last(), id).push(rows.last())
    }
}

/// The table after a statement ran.
pub open spec fn rows_after(rows: Seq<LogView>, statement: StatementView) -> Seq<LogView> {
    match statement {
        StatementView::InsertLog { id, logtype, timestamp, content, .. } => rows.push(
            LogView { id, logtype, timestamp, content },
        ),
        StatementView::UpdateLog { id, content, .. } => rows_edited(rows, id, content),
        StatementView::DeleteLog { id, .. } => rows_without(rows, id),
        _ => rows,
    }
}

/// What the table answers to a statement of the log store. A statement that
/// is none of the log store's is not answered.
pub open spec fn rows_answer(rows: Seq<LogView>, statement: StatementView) -> ReplyView {
    match statement {
        StatementView::LogById { id, .. } => match find_log(rows, id) {
            Some(l) => ReplyView::Row(log_row(l)),
            None => ReplyView::NoRow,
        },
        StatementView::InsertLog { .. } => ReplyView::Done,
        StatementView::UpdateLog { .. } => ReplyView::Done,
        StatementView::DeleteLog { .. } => ReplyView::Done,
        _ => ReplyView::Failed,
    }
}

/// A lookup run to its end: the cache it leaves and what it returns.
pub open spec fn run_lookup(
    table: Seq<char>,
    cache: Map<Seq<char>, Seq<char>>,
    rows: Seq<LogView>,
    id: Seq<char>,
) -> (Map<Seq<char>, Seq<char>>, Result<LogView, LogError>) {
    match lookup_start(table, cache, id) {
        StepView::Done(r) => (cache, r),
        StepView::Ask(pending, statement) => {
            let reply = rows_answer(rows, statement);
            (cache_after_lookup(cache, pending, reply), log_of_reply(reply))
        },
    }
}

/// An edit or a removal from some step on, for at most `fuel` statements:
/// the cache and the table it leaves, and the step it is left at.
pub open spec fn run_change_from(
    table: Seq<char>,
    cache: Map<Seq<char>, Seq<char>>,
    rows: Seq<LogView>,
    step: StepView<LogChangeView, Result<(), LogError>>,
    fuel: nat,
) -> (Map<Seq<char>, Seq<char>>, Seq<LogView>, StepView<LogChangeView, Result<(), LogError>>)
    decreases fuel,
{
    match step {
        StepView::Ask(pending, statement) => if fuel == 0 {
            (cache, rows, step)
        } else {
            let reply = rows_answer(rows, statement);
            run_change_from(
                table,
                cache_after_change(cache, pending, reply),
                rows_after(rows, statement),
                change_next(table, pending, reply),
                (fuel - 1) as nat,
            )
        },
        StepView::Done(_) => (cache, rows, step),
    }
}

/// An edit (with the new content) or a removal (without) run to its end. It
/// asks at most two statements: the lookup of the entry, and the change.
pub open spec fn run_change(
    table: Seq<char>,
    cache: Map<Seq<char>, Seq<char>>,
    rows: Seq<LogView>,
    id: Seq<char>,
    content: Option<Seq<char>>,
) -> (Map<Seq<char>, Seq<char>>, Seq<LogView>, StepView<LogChangeView, Result<(), LogError>>) {
    run_change_from(table, cache, rows, change_start(table, cache, id, content), 2)
}

/// The cache holds no entry that the table does not hold: whatever it holds
/// under an identifier is the first entry of that identifier in the table.
pub open spec fn coherent(cache: Map<Seq<char>, Seq<char>>, rows: Seq<LogView>) -> bool {
    forall|id: Seq<char>| #[trigger]
        cached_log(cache, id) is Some ==> find_log(rows, id) == cached_log(cache, id)
}

/// The row of an entry reads back as the entry.
pub proof fn lemma_log_row_reads_back(l: LogView)
    ensures
        log_of_reply(ReplyView::Row(log_row(l))) == Ok::<LogView, LogError>(l),
{
    reveal_strlit("id");
    reveal_strlit("logtype");
    reveal_strlit("timestamp");
    reveal_strlit("content");
    let row = log_row(l);
    let r3 = row.drop_last();
    let r2 = r3.drop_last();
    let r1 = r2.drop_last();
    let r0 = r1.drop_last();
    assert(r0.len() == 0);
    assert(project(r0) == Some(Map::<Seq<char>, Seq<char>>::empty()));
    let m1 = Map::<Seq<char>, Seq<char>>::empty().insert("id"@, l.id);
    assert(r1.last() == row[0]);
    assert(project(r1) == Some(m1));
    let m2 = m1.insert("logtype"@, l.logtype);
    assert(r2.last() == row[1]);
    assert(project(r2) == Some(m2));
    let m3 = m2.insert("timestamp"@, decimal(l.timestamp as nat));
    assert(r3.last() == row[2]);
    assert(project(r3) == Some(m3));
    let m4 = m3.insert("content"@, l.content);
    assert(row.last() == row[3]);
    assert(project(row) == Some(m4));
    assert("id"@ != "logtype"@ && "id"@ != "timestamp"@ && "id"@ != "content"@) by {
        assert("id"@.len() == 2);
    }
    assert("logtype"@ != "timestamp"@ && "logtype"@ != "content"@) by {
        assert("logtype"@[0] == 'l');
        assert("timestamp"@[0] == 't');
        assert("content"@[0] == 'c');
    }
    assert("timestamp"@ != "content"@) by {
        assert("timestamp"@[0] == 't');
        assert("content"@[0] == 'c');
    }
    assert(lookup(m4, "id"@) == Some(l.id));
    assert(lookup(m4, "logtype"@) == Some(l.logtype));
    assert(lookup(m4, "timestamp"@) == Some(decimal(l.timestamp as nat)));
    assert(lookup(m4, "content"@) == Some(l.content));
    lemma_decimal_round_trip(l.timestamp as nat);
    let d = decimal(l.timestamp as nat);
    assert(d[0] != '+');
    assert(column_number(d) == Some(l.timestamp));
    assert(log_of_row(m4) == Some(l));
}

/// What is found has the identifier that was asked for.
proof fn lemma_found_has_id(rows: Seq<LogView>, id: Seq<char>)
    ensures
        find_log(rows, id) matches Some(l) ==> l.id == id,
    decreases rows.len(),
{
    if rows.len() > 0 {
        lemma_found_has_id(rows.drop_last(), id);
    }
}

/// In the edited table an identifier finds what it found before, with the
/// new content if it is the identifier that was edited.
proof fn lemma_find_in_edited(
    rows: Seq<LogView>,
    id: Seq<char>,
    content: Seq<char>,
    other: Seq<char>,
)
    ensures
        find_log(rows_edited(rows, id, content), other) == match find_log(rows, other) {
            Some(l) => if other == id {
                Some(LogView { content, ..l })
            } else {
                Some(l)
            },
            None => None,
        },
    decreases rows.len(),
{
    if rows.len() > 0 {
        lemma_find_in_edited(rows.drop_last(), id, content, other);
        lemma_found_has_id(rows.drop_last(), other);
        let edited = rows_edited(rows, id, content);
        assert(edited.drop_last() =~= rows_edited(rows.drop_last(), id, content));
    }
}

/// In the table without an identifier, that identifier finds nothing and
/// every other finds what it found before.
proof fn lemma_find_in_without(rows: Seq<LogView>, id: Seq<char>, other: Seq<char>)
    ensures
        find_log(rows_without(rows, id), other) == if other == id {
            None
        } else {
            find_log(rows, other)
        },
    decreases rows.len(),
{
    if rows.len() > 0 {
        lemma_find_in_without(rows.drop_last(), id, other);
        if rows.last().id != id {
            let rest = rows_without(rows, id);
            assert(rest.drop_last() =~= rows_without(rows.drop_last(), id));
        }
    }
}

/// Editing or dropping an identifier that the table does not hold leaves
/// the table as it is.
proof fn lemma_change_of_nothing(rows: Seq<LogView>, id: Seq<char>, content: Seq<char>)
    requires
        find_log(rows, id) is None,
    ensures
        rows_edited(rows, id, content) == rows,
        rows_without(rows, id) == rows,
    decreases rows.len(),
{
    if rows.len() > 0 {
        lemma_change_of_nothing(rows.drop_last(), id, content);
        assert(rows.drop_last().push(rows.last()) =~= rows);
    }
}

/// A lookup through the cache is a lookup in the table. Where the cache is
/// coherent with the table, a lookup returns the first entry that the table
/// holds under the identifier, or `NotFound` where it holds none, whether
/// the cache served it or the table did; and it leaves the cache coherent.
pub proof fn law_lookup_reads_the_table(
    table: Seq<char>,
    cache: Map<Seq<char>, Seq<char>>,
    rows: Seq<LogView>,
    id: Seq<char>,
)
    requires
        coherent(cache, rows),
    ensures
        run_lookup(table, cache, rows, id).1 == match find_log(rows, id) {
            Some(l) => Ok::<LogView, LogError>(l),
            None => Err::<LogView, LogError>(LogError::NotFound),
        },
        coherent(run_lookup(table, cache, rows, id).0, rows),
{
    match cached_log(cache, id) {
        Some(l) => {},
        None => match find_log(rows, id) {
            Some(l) => {
                lemma_log_row_reads_back(l);
                let after = cache_with_log(cache, id, l);
                assert forall|other: Seq<char>| #[trigger]
                    cached_log(after, other) is Some implies find_log(rows, other) == cached_log(
                    after,
                    other,
                ) by {
                    if other != id {
                        law_keys_tell_names_apart(other, id);
                        assert(cached_log(after, other) == cached_log(cache, other));
                    }
                }
            },
            None => {},
        },
    }
}

/// Creating an entry keeps the cache coherent: the new entry goes to the
/// end of the table, and the cache is not touched.
pub proof fn law_create_keeps_coherence(
    cache: Map<Seq<char>, Seq<char>>,
    rows: Seq<LogView>,
    table: Seq<char>,
    l: LogView,
)
    requires
        coherent(cache, rows),
    ensures
        coherent(
            cache,
            rows_after(
                rows,
                StatementView::InsertLog {
                    table,
                    id: l.id,
                    logtype: l.logtype,
                    timestamp: l.timestamp,
                    content: l.content,
                },
            ),
        ),
{
    let after = rows.push(l);
    assert(after.drop_last() =~= rows);
    assert forall|id: Seq<char>| #[trigger] cached_log(cache, id) is Some implies find_log(
        after,
        id,
    ) == cached_log(cache, id) by {
        assert(find_log(rows, id) == cached_log(cache, id));
    }
}

/// Creating an entry and looking it up gives the entry back. After an entry
/// with a fresh identifier was inserted, a lookup of the identifier returns
/// the entry with the type, the timestamp and the content it was created
/// with.
pub proof fn law_created_entry_is_found(
    table: Seq<char>,
    cache: Map<Seq<char>, Seq<char>>,
    rows: Seq<LogView>,
    l: LogView,
)
    requires
        coherent(cache, rows),
        find_log(rows, l.id) is None,
    ensures
        run_lookup(
            table,
            cache,
            rows_after(
                rows,
                StatementView::InsertLog {
                    table,
                    id: l.id,
                    logtype: l.logtype,
                    timestamp: l.timestamp,
                    content: l.content,
                },
            ),
            l.id,
        ).1 == Ok::<LogView, LogError>(l),
{
    let after = rows.push(l);
    assert(after.drop_last() =~= rows);
    law_create_keeps_coherence(cache, rows, table, l);
    law_lookup_reads_the_table(table, cache, after, l.id);
}

/// An edit or a removal ends, does to the table what it says, and keeps the
/// cache coherent. Where the table holds the identifier, the operation
/// succeeds: an edit replaces the content, a removal drops the entries, and
/// the entry's key leaves the cache. Where the table holds none, it fails
/// with `NotFound`, the table is as it was, and so is the cache.
pub proof fn law_change_changes_the_table(
    table: Seq<char>,
    cache: Map<Seq<char>, Seq<char>>,
    rows: Seq<LogView>,
    id: Seq<char>,
    content: Option<Seq<char>>,
)
    requires
        coherent(cache, rows),
    ensures
        ({
            let end = run_change(table, cache, rows, id, content);
            &&& coherent(end.0, end.1)
            &&& match find_log(rows, id) {
                Some(_) => {
                    &&& end.2 == StepView::<LogChangeView, Result<(), LogError>>::Done(Ok(()))
                    &&& end.1 == match content {
                        Some(c) => rows_edited(rows, id, c),
                        None => rows_without(rows, id),
                    }
                    &&& !end.0.contains_key(log_key(id))
                },
                None => {
                    &&& end.2 == StepView::<LogChangeView, Result<(), LogError>>::Done(
                        Err(LogError::NotFound),
                    )
                    &&& end.1 == rows
                    &&& end.0 == cache
                },
            }
        }),
{
    reveal_with_fuel(run_change_from, 3);
    let end = run_change(table, cache, rows, id, content);
    match find_log(rows, id) {
        Some(l) => {
            lemma_log_row_reads_back(l);
            let changed = match content {
                Some(c) => rows_edited(rows, id, c),
                None => rows_without(rows, id),
            };
            assert(end.1 == changed);
            assert forall|other: Seq<char>| #[trigger]
                cached_log(end.0, other) is Some implies find_log(changed, other) == cached_log(
                end.0,
                other,
            ) by {
                if other != id {
                    law_keys_tell_names_apart(other, id);
                    assert(cached_log(end.0, other) == cached_log(cache, other));
                    match content {
                        Some(c) => lemma_find_in_edited(rows, id, c, other),
                        None => lemma_find_in_without(rows, id, other),
                    }
                }
            }
        },
        None => {},
    }
}

/// Editing an entry that does not exist fails with `NotFound` and changes
/// nothing: the table is as it was, the cache is as it was, and the only
/// statement asked was the lookup of the entry.
pub proof fn law_edit_of_missing_entry(
    table: Seq<char>,
    cache: Map<Seq<char>, Seq<char>>,
    rows: Seq<LogView>,
    id: Seq<char>,
    content: Seq<char>,
)
    requires
        coherent(cache, rows),
        find_log(rows, id) is None,
    ensures
        run_change(table, cache, rows, id, Some(content)) == (
            cache,
            rows,
            StepView::<LogChangeView, Result<(), LogError>>::Done(Err(LogError::NotFound)),
        ),
        change_start(table, cache, id, Some(content)) == StepView::<
            LogChangeView,
            Result<(), LogError>,
        >::Ask(
            LogChangeView::Lookup { id, content: Some(content) },
            StatementView::LogById { table, id },
        ),
{
    law_change_changes_the_table(table, cache, rows, id, Some(content));
}

/// An edit is seen by the next lookup, also where the entry was cached
/// before. After an edit of an entry that a lookup had left in the cache,
/// the next lookup returns the entry with its new content, never the old
/// one.
pub proof fn law_edit_is_seen(
    table: Seq<char>,
    cache: Map<Seq<char>, Seq<char>>,
    rows: Seq<LogView>,
    l: LogView,
    content: Seq<char>,
)
    requires
        coherent(cache, rows),
        cached_log(cache, l.id) == Some(l),
    ensures
        ({
            let edited = run_change(table, cache, rows, l.id, Some(content));
            &&& edited.2 == StepView::<LogChangeView, Result<(), LogError>>::Done(Ok(()))
            &&& run_lookup(table, edited.0, edited.1, l.id).1 == Ok::<LogView, LogError>(
                LogView { content, ..l },
            )
        }),
{
    let edited = run_change(table, cache, rows, l.id, Some(content));
    assert(find_log(rows, l.id) == Some(l));
    law_change_changes_the_table(table, cache, rows, l.id, Some(content));
    lemma_find_in_edited(rows, l.id, content, l.id);
    law_lookup_reads_the_table(table, edited.0, edited.1, l.id);
}

/// A removal is seen by the next lookup: after the entries of an identifier
/// were dropped, a lookup of the identifier is `NotFound`.
pub proof fn law_removal_is_seen(
    table: Seq<char>,
    cache: Map<Seq<char>, Seq<char>>,
    rows: Seq<LogView>,
    id: Seq<char>,
)
    requires
        coherent(cache, rows),
    ensures
        ({
            let removed = run_change(table, cache, rows, id, None);
            run_lookup(table, removed.0, removed.1, id).1 == Err::<LogView, LogError>(
                LogError::NotFound,
            )
        }),
{
    let removed = run_change(table, cache, rows, id, None);
    law_change_changes_the_table(table, cache, rows, id, None);
    match find_log(rows, id) {
        Some(_) => {
            lemma_find_in_without(rows, id, id);
        },
        None => {},
    }
    law_lookup_reads_the_table(table, removed.0, removed.1, id);
}

/// The rows of a page of entries.
pub open spec fn log_rows(page: Seq<LogView>) -> Seq<Seq<(Seq<char>, RawValueView)>> {
    Seq::new(page.len(), |i: int| log_row(page[i]))
}

/// A listing hands on what the table handed over: the rows of a page of
/// entries read back as those entries, as many as there were rows and in
/// the order of the rows.
pub proof fn law_listing_keeps_the_page(page: Seq<LogView>)
    ensures
        logs_of_reply(ReplyView::Rows(log_rows(page))) == Ok::<Seq<LogView>, LogError>(page),
    decreases page.len(),
{
    let rows = log_rows(page);
    if page.len() == 0 {
        assert(page =~= Seq::<LogView>::empty());
    } else {
        law_listing_keeps_the_page(page.drop_last());
        assert(rows.drop_last() =~= log_rows(page.drop_last()));
        lemma_log_row_reads_back(page.last());
        assert(page.drop_last().push(page.last()) =~= page);
    }
}

/// An empty cache is coherent with every table.
pub proof fn law_empty_cache_is_coherent(rows: Seq<LogView>)
    ensures
        coherent(Map::<Seq<char>, Seq<char>>::empty(), rows),
{
}

} // verus!
