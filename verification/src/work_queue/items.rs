//! Stored items as they are read: rows become items, visibility rows say who
//! sees them.

use vstd::prelude::*;

use crate::contracts::work_queue::{
    WorkItem, WorkItemAcceptActor, WorkItemStatus, WorkItemWithRevision,
};
use crate::http::{scope_sees, OperatorScope, ScopeView};
use crate::json::{stored_strings, strings_or_none};
use crate::lists::{first_occurrences, without_repeats};
use crate::ordering::{limited, sorted};
use crate::sql::{
    bind_text, placeholder_list, placeholders, statement, SqlStatement, SqlValue, SqlView,
    StatementView,
};
use crate::text::{
    is_blank, lex_less, lex_less_irreflexive, lex_less_total, lex_less_transitive, same_text,
    text_less,
};
use super::model::{EntryView, ItemView};
use super::store::{
    accept_actor_from_str, accept_actor_of, ids_or_source, item_visible_to_scope, optional_str,
    or_source_user, status_from_str, status_of, status_str, status_text, visibility_predicate,
    visibility_sql_filter, ITEM_ENTITY_KIND,
};

verus! {

/// An item as its row, joined with its revision, stores it.
#[derive(Debug, Clone, PartialEq, Eq)]
pub struct ItemRow {
    pub item_id: String,
    pub source_kind: String,
    pub source_ref: String,
    pub category_id: String,
    pub title: String,
    pub summary: String,
    pub packet_kinds_json: String,
    pub status: String,
    pub accept_actor: Option<String>,
    pub created_at_ms: i64,
    pub updated_at_ms: i64,
    pub revision: i64,
    pub ai_suggested: bool,
    pub rationale: String,
    pub source_user_id: Option<String>,
    pub produce_guidance: String,
    pub assignee_user_id: Option<String>,
}

/// The accepting actor that a column holds.
pub open spec fn actor_in_column(column: Option<Seq<char>>) -> Option<WorkItemAcceptActor> {
    match column {
        Some(raw) => accept_actor_of(raw),
        None => None,
    }
}

/// What a row says, given the kinds in it and who sees the item; nothing decorates
/// it yet.
pub open spec fn entry_of(
    row: ItemRow,
    packet_kinds: Seq<Seq<char>>,
    visible_to_user_ids: Seq<Seq<char>>,
) -> EntryView {
    EntryView {
        item: ItemView {
            item_id: row.item_id@,
            source_kind: row.source_kind@,
            source_ref: row.source_ref@,
            category_id: row.category_id@,
            title: row.title@,
            summary: row.summary@,
            packet_kinds,
            status: status_of(row.status@),
            accept_actor: actor_in_column(row.accept_actor.deep_view()),
            ai_suggested: row.ai_suggested,
            rationale: row.rationale@,
            produce_guidance: row.produce_guidance@,
            source_user_id: row.source_user_id.deep_view(),
            assignee_user_id: row.assignee_user_id.deep_view(),
            visible_to_user_ids,
            created_at_ms: row.created_at_ms as u64,
            updated_at_ms: row.updated_at_ms as u64,
        },
        revision: row.revision as u64,
        staged_draft_kinds: Seq::empty(),
        pending_produce_kinds: Seq::empty(),
        failure_notifications: Seq::empty(),
        attention: None,
    }
}

/// The item of a row, given the kinds in it and who sees it.
pub fn item_from_parts(
    row: ItemRow,
    packet_kinds: Vec<String>,
    visible_to_user_ids: Vec<String>,
) -> (r: WorkItemWithRevision)
    ensures
        r.deep_view() == entry_of(row, packet_kinds.deep_view(), visible_to_user_ids.deep_view()),
{
    let accept_actor: Option<WorkItemAcceptActor> = match &row.accept_actor {
        Some(raw) => accept_actor_from_str(raw.as_str()),
        None => None,
    };
    let status: WorkItemStatus = status_from_str(row.status.as_str());
    let entry: WorkItemWithRevision = WorkItemWithRevision {
        item: WorkItem {
            item_id: row.item_id,
            source_kind: row.source_kind,
            source_ref: row.source_ref,
            category_id: row.category_id,
            title: row.title,
            summary: row.summary,
            packet_kinds,
            status,
            accept_actor,
            ai_suggested: row.ai_suggested,
            rationale: row.rationale,
            produce_guidance: row.produce_guidance,
            source_user_id: row.source_user_id,
            assignee_user_id: row.assignee_user_id,
            visible_to_user_ids,
            created_at_ms: row.created_at_ms as u64,
            updated_at_ms: row.updated_at_ms as u64,
        },
        revision: row.revision as u64,
        staged_draft_kinds: Vec::new(),
        pending_produce_kinds: Vec::new(),
        failure_notifications: Vec::new(),
        attention: None,
    };
    proof {
        let v = entry.deep_view();
        assert(v.staged_draft_kinds =~= Seq::<Seq<char>>::empty());
        assert(v.pending_produce_kinds =~= Seq::<Seq<char>>::empty());
        assert(v.failure_notifications =~= Seq::empty());
    }
    entry
}

/// The users that visibility rows of `(item_id, user_id)` name for an item.
pub open spec fn users_of_item(rows: Seq<(Seq<char>, Seq<char>)>, item_id: Seq<char>) -> Seq<
    Seq<char>,
>
    decreases rows.len(),
{
    if rows.len() == 0 {
        Seq::empty()
    } else if rows.last().0 == item_id {
        users_of_item(rows.drop_last(), item_id).push(rows.last().1)
    } else {
        users_of_item(rows.drop_last(), item_id)
    }
}

/// Who sees a listed item: the users of its visibility rows, or its source user
/// where it has none.
pub open spec fn listed_visibility(
    rows: Seq<(Seq<char>, Seq<char>)>,
    item_id: Seq<char>,
    source_user_id: Option<Seq<char>>,
) -> Seq<Seq<char>> {
    let users = users_of_item(rows, item_id);
    if users.len() > 0 {
        first_occurrences(users)
    } else {
        match source_user_id {
            Some(id) => if is_blank(id) {
                Seq::empty()
            } else {
                seq![id]
            },
            None => Seq::empty(),
        }
    }
}

fn item_users(rows: &Vec<(String, String)>, item_id: &str) -> (r: Vec<String>)
    ensures
        r.deep_view() == users_of_item(rows.deep_view(), item_id@),
{
    let mut out: Vec<String> = Vec::new();
    let ghost all = rows.deep_view();
    let mut i: usize = 0;
    proof {
        assert(out.deep_view() =~= users_of_item(all.take(0), item_id@));
    }
    while i < rows.len()
        invariant
            i <= rows.len(),
            all == rows.deep_view(),
            out.deep_view() == users_of_item(all.take(i as int), item_id@),
        decreases rows.len() - i,
    {
        let ghost before = out.deep_view();
        if same_text(rows[i].0.as_str(), item_id) {
            out.push(rows[i].1.clone());
            proof {
                assert(out.deep_view() =~= before.push(rows[i as int].1@));
            }
        }
        proof {
            assert(all.take(i + 1).drop_last() =~= all.take(i as int));
            assert(all.take(i + 1).last() == all[i as int]);
        }
        i += 1;
    }
    proof {
        assert(all.take(i as int) =~= all);
    }
    out
}

fn visibility_of_listed(
    rows: &Vec<(String, String)>,
    item_id: &str,
    source_user_id: Option<&str>,
) -> (r: Vec<String>)
    ensures
        r.deep_view() == listed_visibility(
            rows.deep_view(),
            item_id@,
            source_user_id.deep_view(),
        ),
{
    let users: Vec<String> = item_users(rows, item_id);
    if users.len() > 0 {
        return without_repeats(&users);
    }
    let mut out: Vec<String> = Vec::new();
    proof {
        assert(out.deep_view() =~= Seq::<Seq<char>>::empty());
    }
    if let Some(id) = source_user_id {
        if !id.trim().is_empty() {
            out.push(id.to_owned());
            proof {
                assert(out.deep_view() =~= seq![id@]);
            }
        }
    }
    out
}

/// What a listing says: each row with the kinds in it and who sees it.
pub open spec fn listed(rows: Seq<ItemRow>, visibility_rows: Seq<(Seq<char>, Seq<char>)>) -> Seq<
    EntryView,
> {
    rows.map_values(
        |row: ItemRow|
            entry_of(
                row,
                stored_strings(row.packet_kinds_json@),
                listed_visibility(visibility_rows, row.item_id@, row.source_user_id.deep_view()),
            ),
    )
}

/// The items of a listing, in the order of their rows. `visibility_rows` are the
/// `(item_id, user_id)` rows of these items.
pub fn list_items(rows: Vec<ItemRow>, visibility_rows: &Vec<(String, String)>) -> (r: Vec<
    WorkItemWithRevision,
>)
    ensures
        r.deep_view() == listed(rows@, visibility_rows.deep_view()),
{
    let ghost all = rows@;
    let ghost shown = visibility_rows.deep_view();
    let mut out: Vec<WorkItemWithRevision> = Vec::new();
    proof {
        assert(out.deep_view() =~= listed(all.take(0), shown));
    }
    for row in it: rows
        invariant
            it.seq() == all,
            shown == visibility_rows.deep_view(),
            out.deep_view() == listed(all.take(it.index()), shown),
    {
        let ghost n = it.index();
        let ghost before = out.deep_view();
        let packet_kinds: Vec<String> = strings_or_none(row.packet_kinds_json.as_str());
        let visible: Vec<String> = visibility_of_listed(
            visibility_rows,
            row.item_id.as_str(),
            optional_str(&row.source_user_id),
        );
        let entry: WorkItemWithRevision = item_from_parts(row, packet_kinds, visible);
        let ghost said = entry.deep_view();
        out.push(entry);
        proof {
            assert(out.deep_view() =~= before.push(said));
            assert(listed(all.take(n + 1), shown) =~= listed(all.take(n), shown).push(said));
        }
    }
    proof {
        assert(all.take(all.len() as int) =~= all);
    }
    out
}

/// An item as it is stored, with its client.
pub struct StoredItem {
    pub client_id: Seq<char>,
    pub row: ItemRow,
}

/// A stored row that shows an item to a user.
pub struct VisibilityRow {
    pub client_id: Seq<char>,
    pub item_id: Seq<char>,
    pub user_id: Seq<char>,
}

/// The tables that items are listed from.
pub struct ItemTables {
    pub items: Seq<StoredItem>,
    pub visibility: Seq<VisibilityRow>,
}

impl ItemTables {
    /// A client's items have ids of their own.
    pub open spec fn ids_differ(self) -> bool {
        forall|i: int, j: int|
            0 <= i < j < self.items.len() && (#[trigger] self.items[i]).client_id == (
            #[trigger] self.items[j]).client_id ==> self.items[i].row.item_id@
                != self.items[j].row.item_id@
    }

    /// A visibility row shows the item to a user.
    pub open spec fn shows(self, item: StoredItem, user_id: Seq<char>) -> bool {
        self.visibility.contains(
            VisibilityRow { client_id: item.client_id, item_id: item.row.item_id@, user_id },
        )
    }

    /// The item is in scope.
    pub open spec fn in_scope(self, item: StoredItem, scope: ScopeView) -> bool {
        scope_sees(
            scope,
            item.row.source_user_id.deep_view(),
            match scope {
                ScopeView::All => false,
                ScopeView::User(user_id) => self.shows(item, user_id),
            },
        )
    }
}

/// `a` was created after `b`, or has the greater id where both were created in the
/// same moment.
pub open spec fn newer(a: StoredItem, b: StoredItem) -> bool {
    a.row.created_at_ms > b.row.created_at_ms || (a.row.created_at_ms == b.row.created_at_ms
        && lex_less(b.row.item_id@, a.row.item_id@))
}

/// Which of two items is listed first.
pub open spec fn newest_first() -> spec_fn(StoredItem, StoredItem) -> bool {
    |a: StoredItem, b: StoredItem| newer(a, b)
}

/// What is asked of a listing of items.
pub struct ListingView {
    pub client_id: Seq<char>,
    pub status: Option<WorkItemStatus>,
    pub limit: usize,
    pub scope: ScopeView,
}

impl ListingView {
    /// The listing asks for the item.
    pub open spec fn asks_for(self, tables: ItemTables, item: StoredItem) -> bool {
        &&& item.client_id == self.client_id
        &&& match self.status {
            Some(status) => item.row.status@ == status_text(status),
            None => true,
        }
        &&& tables.in_scope(item, self.scope)
    }

    /// The items that the listing asks for, as they are stored.
    pub open spec fn found(self, tables: ItemTables) -> Seq<StoredItem> {
        tables.items.filter(|item: StoredItem| self.asks_for(tables, item))
    }

    /// The items that the listing holds, newest first.
    pub open spec fn items(self, tables: ItemTables) -> Seq<StoredItem> {
        limited(sorted(self.found(tables), newest_first()), Some(self.limit))
    }

    /// The listing's statement.
    pub open spec fn statement(self) -> StatementView {
        StatementView {
            sql: "SELECT w.item_id, w.source_kind, w.source_ref, w.category_id, w.title, w.summary, w.packet_kinds_json, w.status, w.accept_actor, w.created_at_ms, w.updated_at_ms, COALESCE(er.revision, 0) AS revision, w.ai_suggested, w.rationale, w.source_user_id, w.produce_guidance, w.assignee_user_id FROM work_items w LEFT JOIN entity_revisions er ON er.client_id = w.client_id AND er.entity_kind = ?2 AND er.entity_id = w.item_id WHERE w.client_id = ?1 AND (?3 IS NULL OR w.status = ?3) AND "@
                + visibility_predicate(5, 6)
                + " ORDER BY w.created_at_ms DESC, w.item_id DESC LIMIT ?4"@,
            binds: seq![
                SqlView::Text(self.client_id),
                SqlView::Text(ITEM_ENTITY_KIND@),
                (match self.status {
                    Some(s) => SqlView::Text(status_text(s)),
                    None => SqlView::Null,
                }),
                SqlView::Integer(self.limit as i64),
                SqlView::Integer(
                    if self.scope is All {
                        1
                    } else {
                        0
                    },
                ),
                SqlView::Text(
                    match self.scope {
                        ScopeView::All => Seq::<char>::empty(),
                        ScopeView::User(user_id) => user_id,
                    },
                ),
            ],
        }
    }
}

/// The query that lists the items in scope, newest first.
pub fn list_items_query(
    client_id: &str,
    status: Option<WorkItemStatus>,
    limit: usize,
    scope: &OperatorScope,
) -> (r: SqlStatement)
    ensures
        r.deep_view() == (ListingView {
            client_id: client_id@,
            status,
            limit,
            scope: scope.deep_view(),
        }).statement(),
{
    let (predicate, scope_all, scope_user) = visibility_sql_filter(scope, 5, 6);
    let sql: String =
        "SELECT w.item_id, w.source_kind, w.source_ref, w.category_id, w.title, w.summary, w.packet_kinds_json, w.status, w.accept_actor, w.created_at_ms, w.updated_at_ms, COALESCE(er.revision, 0) AS revision, w.ai_suggested, w.rationale, w.source_user_id, w.produce_guidance, w.assignee_user_id FROM work_items w LEFT JOIN entity_revisions er ON er.client_id = w.client_id AND er.entity_kind = ?2 AND er.entity_id = w.item_id WHERE w.client_id = ?1 AND (?3 IS NULL OR w.status = ?3) AND ".to_owned().concat(
        predicate.as_str(),
    ).concat(" ORDER BY w.created_at_ms DESC, w.item_id DESC LIMIT ?4");
    let status_value: SqlValue = match status {
        Some(s) => bind_text(status_str(s)),
        None => SqlValue::Null,
    };
    let binds: Vec<SqlValue> = vec![
        bind_text(client_id),
        bind_text(ITEM_ENTITY_KIND),
        status_value,
        SqlValue::Integer(limit as i64),
        SqlValue::Integer(scope_all),
        SqlValue::Text(scope_user),
    ];
    proof {
        let listing = ListingView {
            client_id: client_id@,
            status,
            limit,
            scope: scope.deep_view(),
        };
        assert(binds.deep_view() =~= listing.statement().binds);
    }
    statement(sql.as_str(), binds)
}

/// The query of the visibility rows of listed items.
pub open spec fn visibility_query(client_id: Seq<char>, item_ids: Seq<Seq<char>>) -> StatementView {
    StatementView {
        sql: "SELECT item_id, user_id FROM work_item_visibility WHERE client_id = ? AND item_id IN ("@
            + placeholder_list(item_ids.len())
            + ") ORDER BY item_id ASC, user_id COLLATE NOCASE ASC"@,
        binds: seq![SqlView::Text(client_id)] + item_ids.map_values(
            |id: Seq<char>| SqlView::Text(id),
        ),
    }
}

/// The value of each text.
pub fn bind_texts(texts: &Vec<String>) -> (r: Vec<SqlValue>)
    ensures
        r.deep_view() == texts.deep_view().map_values(|t: Seq<char>| SqlView::Text(t)),
{
    let mut out: Vec<SqlValue> = Vec::new();
    let mut i: usize = 0;
    while i < texts.len()
        invariant
            i <= texts.len(),
            out.deep_view() == texts.deep_view().take(i as int).map_values(
                |t: Seq<char>| SqlView::Text(t),
            ),
        decreases texts.len() - i,
    {
        let ghost before = out.deep_view();
        out.push(bind_text(texts[i].as_str()));
        proof {
            assert(out.deep_view() =~= before.push(SqlView::Text(texts[i as int]@)));
            assert(texts.deep_view().take(i + 1).map_values(|t: Seq<char>| SqlView::Text(t))
                =~= before.push(SqlView::Text(texts[i as int]@)));
        }
        i += 1;
    }
    proof {
        assert(texts.deep_view().take(i as int) =~= texts.deep_view());
    }
    out
}

/// The query of the visibility rows of listed items; none where nothing is listed.
pub fn visibility_by_item_ids_query(client_id: &str, item_ids: &Vec<String>) -> (r: Option<
    SqlStatement,
>)
    ensures
        r.deep_view() == (if item_ids.len() == 0 {
            None
        } else {
            Some(visibility_query(client_id@, item_ids.deep_view()))
        }),
{
    if item_ids.len() == 0 {
        return None;
    }
    let sql: String =
        "SELECT item_id, user_id FROM work_item_visibility WHERE client_id = ? AND item_id IN (".to_owned().concat(
        placeholders(item_ids.len()).as_str(),
    ).concat(") ORDER BY item_id ASC, user_id COLLATE NOCASE ASC");
    let mut binds: Vec<SqlValue> = vec![bind_text(client_id)];
    let ghost head = binds.deep_view();
    let mut ids: Vec<SqlValue> = bind_texts(item_ids);
    let ghost tail = ids.deep_view();
    binds.append(&mut ids);
    proof {
        assert(head =~= seq![SqlView::Text(client_id@)]);
        assert(binds.deep_view() =~= head + tail);
    }
    Some(statement(sql.as_str(), binds))
}

/// Who sees one item: the users of its visibility rows, or its source user where
/// it has none.
pub fn item_visible_user_ids_for_source(stored: &Vec<String>, source_user_id: Option<&str>) -> (r:
    Vec<String>)
    ensures
        r.deep_view() == ids_or_source(
            first_occurrences(stored.deep_view()),
            source_user_id.deep_view(),
        ),
{
    or_source_user(without_repeats(stored), source_user_id)
}

/// What one stored item says.
pub open spec fn single_entry(row: ItemRow, stored: Seq<Seq<char>>) -> EntryView {
    entry_of(
        row,
        stored_strings(row.packet_kinds_json@),
        ids_or_source(first_occurrences(stored), row.source_user_id.deep_view()),
    )
}

/// One item, whoever asks. `stored` are the users of its visibility rows.
pub fn get_item_unscoped(row: Option<ItemRow>, stored: &Vec<String>) -> (r: Option<
    WorkItemWithRevision,
>)
    ensures
        r.deep_view() == (match row {
            Some(row) => Some(single_entry(row, stored.deep_view())),
            None => None,
        }),
{
    match row {
        Some(row) => {
            let packet_kinds: Vec<String> = strings_or_none(row.packet_kinds_json.as_str());
            let visible: Vec<String> = item_visible_user_ids_for_source(
                stored,
                optional_str(&row.source_user_id),
            );
            Some(item_from_parts(row, packet_kinds, visible))
        },
        None => None,
    }
}

/// One item, where the scope sees it. `visibility_row` is whether a visibility row
/// shows it to the scope's user.
pub fn get_item_scoped(
    entry: Option<WorkItemWithRevision>,
    scope: &OperatorScope,
    visibility_row: bool,
) -> (r: Option<WorkItemWithRevision>)
    ensures
        r == (match entry {
            Some(e) => if scope_sees(
                scope.deep_view(),
                e.deep_view().item.source_user_id,
                visibility_row,
            ) {
                Some(e)
            } else {
                None
            },
            None => None,
        }),
{
    match entry {
        Some(e) => if item_visible_to_scope(&e.item, scope, visibility_row) {
            Some(e)
        } else {
            None
        },
        None => None,
    }
}

/// True when the count of a source's items is not zero.
pub fn item_exists_for_source(found: i64) -> (r: bool)
    ensures
        r == (found > 0),
{
    found > 0
}

/// How many of the statuses are this one.
pub open spec fn status_count(statuses: Seq<Option<Seq<char>>>, status: Seq<char>) -> nat
    decreases statuses.len(),
{
    if statuses.len() == 0 {
        0
    } else {
        status_count(statuses.drop_last(), status) + (if statuses.last() == Some(status) {
            1nat
        } else {
            0nat
        })
    }
}

/// The counts are of different statuses in ascending order.
pub open spec fn counts_ascend(counts: Seq<(Seq<char>, u64)>) -> bool {
    forall|i: int, j: int|
        0 <= i < j < counts.len() ==> lex_less(#[trigger] counts[i].0, #[trigger] counts[j].0)
}

/// The counts are those of the statuses: every status that occurs, and nothing
/// else.
pub open spec fn counts_match(
    counts: Seq<(Seq<char>, u64)>,
    statuses: Seq<Option<Seq<char>>>,
) -> bool {
    &&& forall|i: int|
        0 <= i < counts.len() ==> (#[trigger] counts[i]).1 == status_count(statuses, counts[i].0)
            && counts[i].1 > 0
    &&& forall|status: Seq<char>|
        status_count(statuses, status) > 0 ==> exists|i: int|
            0 <= i < counts.len() && (#[trigger] counts[i]).0 == status
}

proof fn count_is_bounded(statuses: Seq<Option<Seq<char>>>, status: Seq<char>)
    ensures
        status_count(statuses, status) <= statuses.len(),
    decreases statuses.len(),
{
    if statuses.len() > 0 {
        count_is_bounded(statuses.drop_last(), status);
    }
}

fn count_status(counts: &mut Vec<(String, u64)>, status: &str, Ghost(seen): Ghost<Seq<Option<Seq<char>>>>)
    requires
        counts_ascend(old(counts).deep_view()),
        counts_match(old(counts).deep_view(), seen),
        seen.len() < u64::MAX,
    ensures
        counts_ascend(final(counts).deep_view()),
        counts_match(final(counts).deep_view(), seen.push(Some(status@))),
{
    let ghost before = counts.deep_view();
    let mut i: usize = 0;
    while i < counts.len() && text_less(counts[i].0.as_str(), status)
        invariant
            i <= counts.len(),
            counts.deep_view() == before,
            forall|j: int| 0 <= j < i ==> lex_less((#[trigger] before[j]).0, status@),
        decreases counts.len() - i,
    {
        assert(before[i as int].0 == counts[i as int].0@);
        i += 1;
    }
    let ghost after_seen = seen.push(Some(status@));
    proof {
        assert(after_seen.drop_last() =~= seen);
        assert forall|s: Seq<char>| #[trigger]
            status_count(after_seen, s) == status_count(seen, s) + (if s == status@ {
            1nat
        } else {
            0nat
        }) by {}
        count_is_bounded(seen, status@);
        if i < counts.len() {
            assert(before[i as int].0 == counts[i as int].0@);
        }
    }
    let found: bool = i < counts.len() && same_text(counts[i].0.as_str(), status);
    if found {
        let (text, count) = counts.remove(i);
        proof {
            assert(before[i as int] == (text@, count));
        }
        counts.insert(i, (text, count + 1));
        proof {
            let after = counts.deep_view();
            assert(after =~= before.update(i as int, (text@, (count + 1) as u64)));
            assert forall|k: int| 0 <= k < after.len() implies (#[trigger] after[k]).1
                == status_count(after_seen, after[k].0) && after[k].1 > 0 by {
                if k < i {
                    assert(lex_less(before[k].0, status@));
                    lex_less_irreflexive(status@);
                } else if k > i {
                    assert(lex_less(before[i as int].0, before[k].0));
                    lex_less_irreflexive(status@);
                }
            }
            assert forall|s: Seq<char>| status_count(after_seen, s) > 0 implies exists|k: int|
                0 <= k < after.len() && (#[trigger] after[k]).0 == s by {
                if s == status@ {
                    assert(after[i as int].0 == s);
                } else {
                    assert(status_count(seen, s) > 0);
                    let k = choose|k: int| 0 <= k < before.len() && (#[trigger] before[k]).0 == s;
                    assert(after[k].0 == s);
                }
            }
        }
    } else {
        counts.insert(i, (status.to_owned(), 1));
        proof {
            let after = counts.deep_view();
            assert(after =~= before.insert(i as int, (status@, 1u64)));
            if i < before.len() {
                lex_less_total(before[i as int].0, status@);
                assert(lex_less(status@, before[i as int].0));
            }
            assert forall|j: int| i <= j < before.len() implies lex_less(
                status@,
                (#[trigger] before[j]).0,
            ) by {
                if j > i {
                    lex_less_transitive(status@, before[i as int].0, before[j].0);
                }
            }
            if status_count(seen, status@) > 0 {
                let k = choose|k: int| 0 <= k < before.len() && (#[trigger] before[k]).0 == status@;
                lex_less_irreflexive(status@);
                assert(false);
            }
            assert forall|k: int| 0 <= k < after.len() implies (#[trigger] after[k]).1
                == status_count(after_seen, after[k].0) && after[k].1 > 0 by {
                lex_less_irreflexive(status@);
                if k < i {
                    assert(after[k] == before[k]);
                } else if k > i {
                    assert(after[k] == before[k - 1]);
                }
            }
            assert forall|a: int, b: int| 0 <= a < b < after.len() implies lex_less(
                #[trigger] after[a].0,
                #[trigger] after[b].0,
            ) by {
                if b < i {
                    assert(after[a] == before[a] && after[b] == before[b]);
                } else if b == i {
                    assert(after[a] == before[a]);
                } else if a < i {
                    assert(after[a] == before[a] && after[b] == before[b - 1]);
                } else if a == i {
                    assert(after[b] == before[b - 1]);
                } else {
                    assert(after[a] == before[a - 1] && after[b] == before[b - 1]);
                }
            }
            assert forall|s: Seq<char>| status_count(after_seen, s) > 0 implies exists|k: int|
                0 <= k < after.len() && (#[trigger] after[k]).0 == s by {
                if s == status@ {
                    assert(after[i as int].0 == s);
                } else {
                    assert(status_count(seen, s) > 0);
                    let k = choose|k: int| 0 <= k < before.len() && (#[trigger] before[k]).0 == s;
                    if k < i {
                        assert(after[k].0 == s);
                    } else {
                        assert(after[k + 1].0 == s);
                    }
                }
            }
        }
    }
}

/// How often each status occurs among the items of the sources, in ascending order
/// of the statuses. `statuses` holds the status of each source's item, where it has
/// one.
pub fn status_counts_for_sources(statuses: &Vec<Option<String>>) -> (r: Vec<(String, u64)>)
    ensures
        counts_ascend(r.deep_view()),
        counts_match(r.deep_view(), statuses.deep_view()),
{
    let mut counts: Vec<(String, u64)> = Vec::new();
    let ghost all = statuses.deep_view();
    let mut i: usize = 0;
    proof {
        assert(counts.deep_view() =~= Seq::empty());
        assert(all.take(0) =~= Seq::empty());
    }
    while i < statuses.len()
        invariant
            i <= statuses.len(),
            all == statuses.deep_view(),
            counts_ascend(counts.deep_view()),
            counts_match(counts.deep_view(), all.take(i as int)),
        decreases statuses.len() - i,
    {
        let ghost seen = all.take(i as int);
        proof {
            assert(all.take(i + 1) =~= seen.push(all[i as int]));
            assert(all.take(i + 1).drop_last() =~= seen);
        }
        match &statuses[i] {
            Some(status) => {
                proof {
                    assert(all[i as int] == Some(status@));
                }
                count_status(&mut counts, status.as_str(), Ghost(seen));
            },
            None => {
                proof {
                    assert(all[i as int] == None::<Seq<char>>);
                    assert forall|s: Seq<char>| #[trigger]
                        status_count(all.take(i + 1), s) == status_count(seen, s) by {}
                }
            },
        }
        i += 1;
    }
    proof {
        assert(all.take(i as int) =~= all);
    }
    counts
}

} // verus!
