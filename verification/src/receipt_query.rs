//! Queries over stored receipts: what each condition means of a receipt, and how
//! it is written in SQL.

use vstd::prelude::*;

use crate::contracts::receipt::ReceiptOutcomeDto;
use crate::ordering::{limited, sorted};
use crate::sql::{
    bind_text, placeholder_list, placeholders, statement, SqlStatement, SqlValue, SqlView,
    StatementView,
};
use crate::store_core::{outcome_text, ReceiptView};
use crate::text::{join, joined, lex_less};

verus! {

/// What is selected of a receipt that is served.
pub const RECEIPT_COLUMNS: &'static str = "receipt_id, client_id, entity_kind, entity_id, change_kind, actor_id, actor_kind, outcome, error_class, revision_before, revision_after, idempotency_key, correlation_id, causation_id, created_at_ms";

/// A condition on a stored receipt.
#[derive(Debug)]
pub enum Condition<'a> {
    Client(&'a str),
    EntityKind(&'a str),
    EntityId(&'a str),
    IdempotencyKey(&'a str),
    /// The key is this text, or stands behind it.
    KeyFrom(&'a str),
    /// The key stands before this text.
    KeyBelow(&'a str),
    Applied,
    /// Written before this moment.
    CreatedBefore(u64),
    /// A payload is kept of what the mutation changed.
    HasPayload,
    EntityKindIn(&'a [&'a str]),
    /// Of an entity of this kind, only these changes.
    ChangeKindIn(&'a str, &'a [&'a str]),
    CorrelationIn(&'a [String]),
    ReceiptIdIn(&'a [String]),
}

/// What a [`Condition`] says.
pub enum ConditionView {
    Client(Seq<char>),
    EntityKind(Seq<char>),
    EntityId(Seq<char>),
    IdempotencyKey(Seq<char>),
    KeyFrom(Seq<char>),
    KeyBelow(Seq<char>),
    Applied,
    CreatedBefore(u64),
    HasPayload,
    EntityKindIn(Seq<Seq<char>>),
    ChangeKindIn(Seq<char>, Seq<Seq<char>>),
    CorrelationIn(Seq<Seq<char>>),
    ReceiptIdIn(Seq<Seq<char>>),
}

impl<'a> DeepView for Condition<'a> {
    type V = ConditionView;

    open spec fn deep_view(&self) -> ConditionView {
        match self {
            Condition::Client(id) => ConditionView::Client(id@),
            Condition::EntityKind(kind) => ConditionView::EntityKind(kind@),
            Condition::EntityId(id) => ConditionView::EntityId(id@),
            Condition::IdempotencyKey(key) => ConditionView::IdempotencyKey(key@),
            Condition::KeyFrom(text) => ConditionView::KeyFrom(text@),
            Condition::KeyBelow(text) => ConditionView::KeyBelow(text@),
            Condition::Applied => ConditionView::Applied,
            Condition::CreatedBefore(moment) => ConditionView::CreatedBefore(*moment),
            Condition::HasPayload => ConditionView::HasPayload,
            Condition::EntityKindIn(kinds) => ConditionView::EntityKindIn(kinds.deep_view()),
            Condition::ChangeKindIn(kind, changes) => ConditionView::ChangeKindIn(
                kind@,
                changes.deep_view(),
            ),
            Condition::CorrelationIn(ids) => ConditionView::CorrelationIn(ids.deep_view()),
            Condition::ReceiptIdIn(ids) => ConditionView::ReceiptIdIn(ids.deep_view()),
        }
    }
}

impl ConditionView {
    /// The condition holds of a receipt.
    pub open spec fn holds(self, receipt: ReceiptView) -> bool {
        match self {
            ConditionView::Client(id) => receipt.client_id == id,
            ConditionView::EntityKind(kind) => receipt.entity_kind == kind,
            ConditionView::EntityId(id) => receipt.entity_id == id,
            ConditionView::IdempotencyKey(key) => receipt.idempotency_key == key,
            ConditionView::KeyFrom(text) => !lex_less(receipt.idempotency_key, text),
            ConditionView::KeyBelow(text) => lex_less(receipt.idempotency_key, text),
            ConditionView::Applied => receipt.outcome == outcome_text(ReceiptOutcomeDto::Applied),
            ConditionView::CreatedBefore(moment) => receipt.created_at_ms < moment as i64,
            ConditionView::HasPayload => receipt.before_json is Some || receipt.after_json is Some,
            ConditionView::EntityKindIn(kinds) => kinds.contains(receipt.entity_kind),
            ConditionView::ChangeKindIn(kind, changes) => receipt.entity_kind != kind
                || changes.contains(receipt.change_kind),
            ConditionView::CorrelationIn(ids) => match receipt.correlation_id {
                Some(id) => ids.contains(id),
                None => false,
            },
            ConditionView::ReceiptIdIn(ids) => ids.contains(receipt.receipt_id),
        }
    }

    /// The condition in SQL.
    pub open spec fn sql(self) -> Seq<char> {
        match self {
            ConditionView::Client(_) => "client_id = ?"@,
            ConditionView::EntityKind(_) => "entity_kind = ?"@,
            ConditionView::EntityId(_) => "entity_id = ?"@,
            ConditionView::IdempotencyKey(_) => "idempotency_key = ?"@,
            ConditionView::KeyFrom(_) => "idempotency_key >= ?"@,
            ConditionView::KeyBelow(_) => "idempotency_key < ?"@,
            ConditionView::Applied => "outcome = 'applied'"@,
            ConditionView::CreatedBefore(_) => "created_at_ms < ?"@,
            ConditionView::HasPayload => "(before_json IS NOT NULL OR after_json IS NOT NULL)"@,
            ConditionView::EntityKindIn(kinds) => "entity_kind IN ("@ + placeholder_list(
                kinds.len(),
            ) + ")"@,
            ConditionView::ChangeKindIn(_, changes) => "(entity_kind <> ? OR change_kind IN ("@
                + placeholder_list(changes.len()) + "))"@,
            ConditionView::CorrelationIn(ids) => "correlation_id IN ("@ + placeholder_list(
                ids.len(),
            ) + ")"@,
            ConditionView::ReceiptIdIn(ids) => "receipt_id IN ("@ + placeholder_list(ids.len())
                + ")"@,
        }
    }

    /// The values that the condition binds.
    pub open spec fn values(self) -> Seq<SqlView> {
        match self {
            ConditionView::Client(text) => seq![SqlView::Text(text)],
            ConditionView::EntityKind(text) => seq![SqlView::Text(text)],
            ConditionView::EntityId(text) => seq![SqlView::Text(text)],
            ConditionView::IdempotencyKey(text) => seq![SqlView::Text(text)],
            ConditionView::KeyFrom(text) => seq![SqlView::Text(text)],
            ConditionView::KeyBelow(text) => seq![SqlView::Text(text)],
            ConditionView::Applied => Seq::empty(),
            ConditionView::CreatedBefore(moment) => seq![SqlView::Integer(moment as i64)],
            ConditionView::HasPayload => Seq::empty(),
            ConditionView::EntityKindIn(texts) => text_values(texts),
            ConditionView::ChangeKindIn(kind, texts) => seq![SqlView::Text(kind)] + text_values(
                texts,
            ),
            ConditionView::CorrelationIn(texts) => text_values(texts),
            ConditionView::ReceiptIdIn(texts) => text_values(texts),
        }
    }
}

/// Texts as the values a statement binds.
pub open spec fn text_values(texts: Seq<Seq<char>>) -> Seq<SqlView> {
    texts.map_values(|t: Seq<char>| SqlView::Text(t))
}

fn push_strs(values: &mut Vec<SqlValue>, texts: &[&str])
    ensures
        final(values).deep_view() == old(values).deep_view() + text_values(texts.deep_view()),
{
    let ghost start = values.deep_view();
    let mut i: usize = 0;
    proof {
        assert(start + text_values(texts.deep_view().take(0)) =~= start);
    }
    while i < texts.len()
        invariant
            i <= texts.len(),
            values.deep_view() == start + text_values(texts.deep_view().take(i as int)),
        decreases texts.len() - i,
    {
        let ghost before = values.deep_view();
        values.push(bind_text(texts[i]));
        proof {
            assert(texts.deep_view()[i as int] == texts[i as int]@);
            assert(values.deep_view() =~= before.push(SqlView::Text(texts[i as int]@)));
            assert(start + text_values(texts.deep_view().take(i + 1)) =~= before.push(
                SqlView::Text(texts[i as int]@),
            ));
        }
        i += 1;
    }
    proof {
        assert(texts.deep_view().take(i as int) =~= texts.deep_view());
    }
}

fn push_strings(values: &mut Vec<SqlValue>, texts: &[String])
    ensures
        final(values).deep_view() == old(values).deep_view() + text_values(texts.deep_view()),
{
    let ghost start = values.deep_view();
    let mut i: usize = 0;
    proof {
        assert(start + text_values(texts.deep_view().take(0)) =~= start);
    }
    while i < texts.len()
        invariant
            i <= texts.len(),
            values.deep_view() == start + text_values(texts.deep_view().take(i as int)),
        decreases texts.len() - i,
    {
        let ghost before = values.deep_view();
        values.push(bind_text(texts[i].as_str()));
        proof {
            assert(texts.deep_view()[i as int] == texts[i as int]@);
            assert(values.deep_view() =~= before.push(SqlView::Text(texts[i as int]@)));
            assert(start + text_values(texts.deep_view().take(i + 1)) =~= before.push(
                SqlView::Text(texts[i as int]@),
            ));
        }
        i += 1;
    }
    proof {
        assert(texts.deep_view().take(i as int) =~= texts.deep_view());
    }
}

fn push_value(values: &mut Vec<SqlValue>, value: SqlValue)
    ensures
        final(values).deep_view() == old(values).deep_view() + seq![value.deep_view()],
{
    let ghost before = values.deep_view();
    let ghost said = value.deep_view();
    values.push(value);
    proof {
        assert(values.deep_view() =~= before + seq![said]);
    }
}

impl<'a> Condition<'a> {
    /// The condition in SQL.
    pub fn to_sql(&self) -> (r: String)
        ensures
            r@ == self.deep_view().sql(),
    {
        match self {
            Condition::Client(_) => "client_id = ?".to_owned(),
            Condition::EntityKind(_) => "entity_kind = ?".to_owned(),
            Condition::EntityId(_) => "entity_id = ?".to_owned(),
            Condition::IdempotencyKey(_) => "idempotency_key = ?".to_owned(),
            Condition::KeyFrom(_) => "idempotency_key >= ?".to_owned(),
            Condition::KeyBelow(_) => "idempotency_key < ?".to_owned(),
            Condition::Applied => "outcome = 'applied'".to_owned(),
            Condition::CreatedBefore(_) => "created_at_ms < ?".to_owned(),
            Condition::HasPayload =>
                "(before_json IS NOT NULL OR after_json IS NOT NULL)".to_owned(),
            Condition::EntityKindIn(kinds) => "entity_kind IN (".to_owned().concat(
                placeholders(kinds.len()).as_str(),
            ).concat(")"),
            Condition::ChangeKindIn(_, changes) =>
                "(entity_kind <> ? OR change_kind IN (".to_owned().concat(
                placeholders(changes.len()).as_str(),
            ).concat("))"),
            Condition::CorrelationIn(ids) => "correlation_id IN (".to_owned().concat(
                placeholders(ids.len()).as_str(),
            ).concat(")"),
            Condition::ReceiptIdIn(ids) => "receipt_id IN (".to_owned().concat(
                placeholders(ids.len()).as_str(),
            ).concat(")"),
        }
    }

    /// Append the values that the condition binds.
    pub fn push_values(&self, values: &mut Vec<SqlValue>)
        ensures
            final(values).deep_view() == old(values).deep_view() + self.deep_view().values(),
    {
        let ghost start = values.deep_view();
        match self {
            Condition::Client(text) => push_value(values, bind_text(text)),
            Condition::EntityKind(text) => push_value(values, bind_text(text)),
            Condition::EntityId(text) => push_value(values, bind_text(text)),
            Condition::IdempotencyKey(text) => push_value(values, bind_text(text)),
            Condition::KeyFrom(text) => push_value(values, bind_text(text)),
            Condition::KeyBelow(text) => push_value(values, bind_text(text)),
            Condition::Applied => {},
            Condition::CreatedBefore(moment) => push_value(
                values,
                SqlValue::Integer(*moment as i64),
            ),
            Condition::HasPayload => {},
            Condition::EntityKindIn(texts) => push_strs(values, texts),
            Condition::ChangeKindIn(kind, texts) => {
                push_value(values, bind_text(kind));
                push_strs(values, texts);
            },
            Condition::CorrelationIn(texts) => push_strings(values, texts),
            Condition::ReceiptIdIn(texts) => push_strings(values, texts),
        }
        proof {
            assert(values.deep_view() =~= start + self.deep_view().values());
        }
    }
}

/// Every condition holds of a receipt.
pub open spec fn all_hold(conditions: Seq<ConditionView>, receipt: ReceiptView) -> bool {
    forall|i: int| 0 <= i < conditions.len() ==> (#[trigger] conditions[i]).holds(receipt)
}

/// The conditions as a `WHERE` clause.
pub open spec fn where_text(conditions: Seq<ConditionView>) -> Seq<char> {
    "WHERE "@ + joined(conditions.map_values(|c: ConditionView| c.sql()), " AND "@)
}

/// The values of [`where_text`].
pub open spec fn where_values(conditions: Seq<ConditionView>) -> Seq<SqlView>
    decreases conditions.len(),
{
    if conditions.len() == 0 {
        Seq::empty()
    } else {
        where_values(conditions.drop_last()) + conditions.last().values()
    }
}

/// The conditions as a `WHERE` clause.
pub fn where_sql(conditions: &Vec<Condition<'_>>) -> (r: String)
    ensures
        r@ == where_text(conditions.deep_view()),
{
    let mut clauses: Vec<String> = Vec::new();
    let ghost all = conditions.deep_view();
    let ghost f = |c: ConditionView| c.sql();
    let mut i: usize = 0;
    proof {
        assert(clauses.deep_view() =~= all.take(0).map_values(f));
    }
    while i < conditions.len()
        invariant
            i <= conditions.len(),
            all == conditions.deep_view(),
            f == |c: ConditionView| c.sql(),
            clauses.deep_view() == all.take(i as int).map_values(f),
        decreases conditions.len() - i,
    {
        let clause: String = conditions[i].to_sql();
        let ghost before = clauses.deep_view();
        let ghost said = clause@;
        clauses.push(clause);
        proof {
            assert(clauses.deep_view() =~= before.push(said));
            assert(all[i as int] == conditions[i as int].deep_view());
            assert(all.take(i + 1).map_values(f) =~= before.push(said));
        }
        i += 1;
    }
    proof {
        assert(all.take(i as int) =~= all);
    }
    "WHERE ".to_owned().concat(join(&clauses, " AND ").as_str())
}

/// The values of [`where_sql`].
pub fn where_binds(conditions: &Vec<Condition<'_>>) -> (r: Vec<SqlValue>)
    ensures
        r.deep_view() == where_values(conditions.deep_view()),
{
    let mut values: Vec<SqlValue> = Vec::new();
    let ghost all = conditions.deep_view();
    let mut i: usize = 0;
    proof {
        assert(values.deep_view() =~= where_values(all.take(0)));
    }
    while i < conditions.len()
        invariant
            i <= conditions.len(),
            all == conditions.deep_view(),
            values.deep_view() == where_values(all.take(i as int)),
        decreases conditions.len() - i,
    {
        conditions[i].push_values(&mut values);
        proof {
            assert(all.take(i + 1).drop_last() =~= all.take(i as int));
            assert(all.take(i + 1).last() == conditions[i as int].deep_view());
        }
        i += 1;
    }
    proof {
        assert(all.take(i as int) =~= all);
    }
    values
}

/// The order in which receipts are listed: by the moment they were written, and by
/// their ids where that is the same.
#[derive(Debug, Clone, Copy, PartialEq, Eq, Structural)]
pub enum Order {
    Unordered,
    OldestFirst,
    NewestFirst,
}

/// A query over the stored receipts.
#[derive(Debug)]
pub struct ReceiptQuery<'a> {
    /// What is selected of each receipt.
    pub columns: &'a str,
    pub conditions: Vec<Condition<'a>>,
    pub order: Order,
    pub limit: Option<usize>,
}

/// What a [`ReceiptQuery`] says.
pub struct QueryView {
    pub columns: Seq<char>,
    pub conditions: Seq<ConditionView>,
    pub order: Order,
    pub limit: Option<usize>,
}

impl<'a> DeepView for ReceiptQuery<'a> {
    type V = QueryView;

    open spec fn deep_view(&self) -> QueryView {
        QueryView {
            columns: self.columns@,
            conditions: self.conditions.deep_view(),
            order: self.order,
            limit: self.limit,
        }
    }
}

/// An order in SQL.
pub open spec fn order_text(order: Order) -> Seq<char> {
    match order {
        Order::Unordered => Seq::<char>::empty(),
        Order::OldestFirst => " ORDER BY created_at_ms ASC, receipt_id ASC"@,
        Order::NewestFirst => " ORDER BY created_at_ms DESC, receipt_id DESC"@,
    }
}

/// `a` was written before `b`, or has the lesser id where both were written in the
/// same moment.
pub open spec fn older(a: ReceiptView, b: ReceiptView) -> bool {
    a.created_at_ms < b.created_at_ms || (a.created_at_ms == b.created_at_ms && lex_less(
        a.receipt_id,
        b.receipt_id,
    ))
}

/// `a` is listed before `b`.
pub open spec fn comes_before(order: Order, a: ReceiptView, b: ReceiptView) -> bool {
    match order {
        Order::Unordered => false,
        Order::OldestFirst => older(a, b),
        Order::NewestFirst => older(b, a),
    }
}

/// Which of two receipts an order lists first.
pub open spec fn listed_before(order: Order) -> spec_fn(ReceiptView, ReceiptView) -> bool {
    |a: ReceiptView, b: ReceiptView| comes_before(order, a, b)
}

/// The receipts that meet every condition.
pub open spec fn meets(conditions: Seq<ConditionView>) -> spec_fn(ReceiptView) -> bool {
    |r: ReceiptView| all_hold(conditions, r)
}

/// The stored receipts that meet every condition.
pub open spec fn matching(conditions: Seq<ConditionView>, receipts: Seq<ReceiptView>) -> Seq<
    ReceiptView,
> {
    receipts.filter(meets(conditions))
}

impl QueryView {
    /// The receipts that the query lists, of those that are stored. An unordered
    /// query lists them in no promised order; the one given here is that in which
    /// they are stored.
    pub open spec fn rows(self, receipts: Seq<ReceiptView>) -> Seq<ReceiptView> {
        let found = matching(self.conditions, receipts);
        limited(
            match self.order {
                Order::Unordered => found,
                _ => sorted(found, listed_before(self.order)),
            },
            self.limit,
        )
    }

    /// The query's statement.
    pub open spec fn statement(self) -> StatementView {
        StatementView {
            sql: "SELECT "@ + self.columns + " FROM receipts "@ + where_text(self.conditions)
                + order_text(self.order) + (if self.limit is Some {
                " LIMIT ?"@
            } else {
                Seq::<char>::empty()
            }),
            binds: where_values(self.conditions) + (match self.limit {
                Some(limit) => seq![SqlView::Integer(limit as i64)],
                None => Seq::empty(),
            }),
        }
    }
}

impl<'a> ReceiptQuery<'a> {
    /// The query's statement.
    pub fn to_statement(&self) -> (r: SqlStatement)
        ensures
            r.deep_view() == self.deep_view().statement(),
    {
        proof {
            reveal_strlit("");
            assert(""@ =~= Seq::<char>::empty());
        }
        let order: &str = match self.order {
            Order::Unordered => "",
            Order::OldestFirst => " ORDER BY created_at_ms ASC, receipt_id ASC",
            Order::NewestFirst => " ORDER BY created_at_ms DESC, receipt_id DESC",
        };
        let limit: &str = match self.limit {
            Some(_) => " LIMIT ?",
            None => "",
        };
        let mut binds: Vec<SqlValue> = where_binds(&self.conditions);
        match self.limit {
            Some(n) => push_value(&mut binds, SqlValue::Integer(n as i64)),
            None => {},
        }
        let sql: String = "SELECT ".to_owned().concat(self.columns).concat(
            " FROM receipts ",
        ).concat(where_sql(&self.conditions).as_str()).concat(order).concat(limit);
        proof {
            assert(sql@ =~= self.deep_view().statement().sql);
            assert(binds.deep_view() =~= self.deep_view().statement().binds);
        }
        statement(sql.as_str(), binds)
    }
}

/// No two receipts share an id.
pub open spec fn ids_differ(receipts: Seq<ReceiptView>) -> bool {
    forall|i: int, j: int|
        0 <= i < j < receipts.len() ==> (#[trigger] receipts[i]).receipt_id != (
        #[trigger] receipts[j]).receipt_id
}

} // verus!
