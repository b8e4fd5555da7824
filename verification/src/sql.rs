//! SQL statements: their text and the values they bind.

use vstd::prelude::*;

use crate::text::joined;

verus! {

/// A value that a statement binds.
#[derive(Debug, Clone, PartialEq, Eq)]
pub enum SqlValue {
    Null,
    Integer(i64),
    Text(String),
}

/// What a [`SqlValue`] says.
pub enum SqlView {
    Null,
    Integer(i64),
    Text(Seq<char>),
}

impl DeepView for SqlValue {
    type V = SqlView;

    open spec fn deep_view(&self) -> SqlView {
        match self {
            SqlValue::Null => SqlView::Null,
            SqlValue::Integer(value) => SqlView::Integer(*value),
            SqlValue::Text(value) => SqlView::Text(value@),
        }
    }
}

/// A statement and the values it binds, in order.
#[derive(Debug, Clone, PartialEq, Eq)]
pub struct SqlStatement {
    pub sql: String,
    pub binds: Vec<SqlValue>,
}

/// What a [`SqlStatement`] says.
pub struct StatementView {
    pub sql: Seq<char>,
    pub binds: Seq<SqlView>,
}

impl DeepView for SqlStatement {
    type V = StatementView;

    open spec fn deep_view(&self) -> StatementView {
        StatementView { sql: self.sql@, binds: self.binds.deep_view() }
    }
}

/// A text, or null.
pub open spec fn text_or_null(value: Option<Seq<char>>) -> SqlView {
    match value {
        Some(text) => SqlView::Text(text),
        None => SqlView::Null,
    }
}

/// The value of a text.
pub fn bind_text(value: &str) -> (r: SqlValue)
    ensures
        r.deep_view() == SqlView::Text(value@),
{
    SqlValue::Text(value.to_owned())
}

/// The value of a text, or null.
pub fn bind_optional(value: &Option<String>) -> (r: SqlValue)
    ensures
        r.deep_view() == text_or_null(value.deep_view()),
{
    match value {
        Some(text) => SqlValue::Text(text.clone()),
        None => SqlValue::Null,
    }
}

/// An integer, or null.
pub open spec fn integer_or_null(value: Option<i64>) -> SqlView {
    match value {
        Some(n) => SqlView::Integer(n),
        None => SqlView::Null,
    }
}

/// The value of an integer, or null.
pub fn bind_optional_integer(value: Option<i64>) -> (r: SqlValue)
    ensures
        r.deep_view() == integer_or_null(value),
{
    match value {
        Some(n) => SqlValue::Integer(n),
        None => SqlValue::Null,
    }
}

/// A truth value as SQLite stores it.
pub open spec fn flag(value: bool) -> SqlView {
    SqlView::Integer(
        if value {
            1
        } else {
            0
        },
    )
}

/// The value of a truth value.
pub fn bind_flag(value: bool) -> (r: SqlValue)
    ensures
        r.deep_view() == flag(value),
{
    SqlValue::Integer(
        if value {
            1
        } else {
            0
        },
    )
}

/// `n` question marks with commas between them.
pub open spec fn placeholder_list(n: nat) -> Seq<char> {
    joined(Seq::new(n, |i: int| "?"@), ", "@)
}

/// `n` question marks with commas between them.
pub fn placeholders(n: usize) -> (r: String)
    ensures
        r@ == placeholder_list(n as nat),
{
    let mut out: String = String::new();
    let mut i: usize = 0;
    while i < n
        invariant
            i <= n,
            out@ == placeholder_list(i as nat),
        decreases n - i,
    {
        if i > 0 {
            out.append(", ");
        }
        out.append("?");
        proof {
            let marks = Seq::new((i + 1) as nat, |j: int| "?"@);
            assert(marks.drop_last() =~= Seq::new(i as nat, |j: int| "?"@));
            assert(marks.last() == "?"@);
            if i == 0 {
                assert(out@ =~= marks[0]);
            }
        }
        i += 1;
    }
    out
}

/// A statement with these values bound.
pub fn statement(sql: &str, binds: Vec<SqlValue>) -> (r: SqlStatement)
    ensures
        r.deep_view() == (StatementView { sql: sql@, binds: binds.deep_view() }),
{
    SqlStatement { sql: sql.to_owned(), binds }
}

} // verus!
