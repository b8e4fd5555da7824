//! Who asks: the scope that an authenticated operator acts in.

use vstd::prelude::*;

use crate::text::same_text;

verus! {

/// The whole client's queue, or what one operator user may see of it.
#[derive(Debug, Clone, PartialEq, Eq)]
pub enum OperatorScope {
    All,
    User(String),
}

/// What an [`OperatorScope`] says.
pub enum ScopeView {
    All,
    User(Seq<char>),
}

impl DeepView for OperatorScope {
    type V = ScopeView;

    open spec fn deep_view(&self) -> ScopeView {
        match self {
            OperatorScope::All => ScopeView::All,
            OperatorScope::User(user_id) => ScopeView::User(user_id@),
        }
    }
}

impl OperatorScope {
    /// The two values that a scoped query binds: whether every row is in scope,
    /// and the user whose rows are.
    pub fn sql_params(&self) -> (r: (i64, String))
        ensures
            r.0 == (if self.deep_view() is All {
                1i64
            } else {
                0i64
            }),
            r.1@ == (match self.deep_view() {
                ScopeView::All => Seq::<char>::empty(),
                ScopeView::User(user_id) => user_id,
            }),
    {
        match self {
            OperatorScope::All => (1, String::new()),
            OperatorScope::User(user_id) => (0, user_id.clone()),
        }
    }

    /// True when what this user sourced is in scope.
    pub fn matches_source_user(&self, source_user_id: Option<&str>) -> (r: bool)
        ensures
            r == scope_owns(self.deep_view(), source_user_id.deep_view()),
    {
        match self {
            OperatorScope::All => true,
            OperatorScope::User(user_id) => match source_user_id {
                Some(source) => same_text(source, user_id.as_str()),
                None => false,
            },
        }
    }
}

/// What this user sourced is in scope.
pub open spec fn scope_owns(scope: ScopeView, source_user_id: Option<Seq<char>>) -> bool {
    match scope {
        ScopeView::All => true,
        ScopeView::User(user_id) => source_user_id == Some(user_id),
    }
}

/// What this user sourced, or what a visibility row shows, is in scope.
pub open spec fn scope_sees(
    scope: ScopeView,
    source_user_id: Option<Seq<char>>,
    visibility_row: bool,
) -> bool {
    scope_owns(scope, source_user_id) || visibility_row
}

} // verus!
