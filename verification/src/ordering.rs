//! What an ordered and limited selection of rows lists.

use vstd::prelude::*;

verus! {

/// `list` with `x` put behind the last entry that it does not come before.
pub open spec fn placed<T>(list: Seq<T>, x: T, before: spec_fn(T, T) -> bool) -> Seq<T>
    decreases list.len(),
{
    if list.len() > 0 && before(x, list.last()) {
        placed(list.drop_last(), x, before).push(list.last())
    } else {
        list.push(x)
    }
}

/// The entries of `list` in an order.
pub open spec fn sorted<T>(list: Seq<T>, before: spec_fn(T, T) -> bool) -> Seq<T>
    decreases list.len(),
{
    if list.len() == 0 {
        list
    } else {
        placed(sorted(list.drop_last(), before), list.last(), before)
    }
}

/// The first entries of a list, as many as a bound limit admits. SQLite takes a
/// negative limit, which is what one past `i64::MAX` is bound as, for none.
pub open spec fn limited<T>(list: Seq<T>, limit: Option<usize>) -> Seq<T> {
    match limit {
        Some(n) => if n <= i64::MAX && n < list.len() {
            list.take(n as int)
        } else {
            list
        },
        None => list,
    }
}

/// How many of `n` entries a bound limit admits.
pub open spec fn admitted(n: nat, limit: usize) -> nat {
    if limit <= i64::MAX && limit < n {
        limit as nat
    } else {
        n
    }
}

/// Each entry comes before every later one.
pub open spec fn in_order<T>(list: Seq<T>, before: spec_fn(T, T) -> bool) -> bool {
    forall|i: int, j: int| 0 <= i < j < list.len() ==> before(#[trigger] list[i], #[trigger] list[j])
}

/// Of any two entries one comes before the other.
pub open spec fn comparable<T>(list: Seq<T>, before: spec_fn(T, T) -> bool) -> bool {
    forall|i: int, j: int|
        0 <= i < j < list.len() ==> before(#[trigger] list[i], #[trigger] list[j]) || before(
            list[j],
            list[i],
        )
}

/// What comes before an entry comes before all that the entry comes before.
pub open spec fn transitive<T>(before: spec_fn(T, T) -> bool) -> bool {
    forall|a: T, b: T, c: T| #[trigger] before(a, b) && #[trigger] before(b, c) ==> before(a, c)
}

proof fn placing_keeps_order<T>(list: Seq<T>, x: T, before: spec_fn(T, T) -> bool)
    requires
        transitive(before),
        in_order(list, before),
        forall|i: int| 0 <= i < list.len() ==> before(#[trigger] list[i], x) || before(x, list[i]),
    ensures
        in_order(placed(list, x, before), before),
        placed(list, x, before).len() == list.len() + 1,
        forall|y: T| #[trigger]
            placed(list, x, before).contains(y) <==> list.contains(y) || y == x,
    decreases list.len(),
{
    let r = placed(list, x, before);
    if list.len() > 0 && before(x, list.last()) {
        let front = list.drop_last();
        let last = list.last();
        assert forall|i: int| 0 <= i < front.len() implies before(#[trigger] front[i], x) || before(
            x,
            front[i],
        ) by {
            assert(list[i] == front[i]);
        }
        assert(in_order(front, before)) by {
            assert forall|i: int, j: int| 0 <= i < j < front.len() implies before(
                #[trigger] front[i],
                #[trigger] front[j],
            ) by {
                assert(list[i] == front[i] && list[j] == front[j]);
            }
        }
        placing_keeps_order(front, x, before);
        let p = placed(front, x, before);
        assert(list[list.len() - 1] == last);
        assert forall|i: int, j: int| 0 <= i < j < r.len() implies before(
            #[trigger] r[i],
            #[trigger] r[j],
        ) by {
            assert(r[i] == p[i]);
            if j == p.len() {
                assert(p.contains(p[i]));
                if p[i] != x {
                    let k = choose|k: int| 0 <= k < front.len() && front[k] == p[i];
                    assert(list[k] == p[i]);
                }
            } else {
                assert(r[j] == p[j]);
            }
        }
        assert forall|y: T| #[trigger] r.contains(y) <==> list.contains(y) || y == x by {
            assert(p.contains(y) <==> front.contains(y) || y == x);
            if r.contains(y) {
                let i = choose|i: int| 0 <= i < r.len() && r[i] == y;
                if i < p.len() {
                    assert(p[i] == y);
                    if front.contains(y) {
                        let k = choose|k: int| 0 <= k < front.len() && front[k] == y;
                        assert(list[k] == y);
                    }
                }
            }
            if p.contains(y) {
                let i = choose|i: int| 0 <= i < p.len() && p[i] == y;
                assert(r[i] == y);
            }
            if list.contains(y) {
                let k = choose|k: int| 0 <= k < list.len() && list[k] == y;
                if k < front.len() {
                    assert(front[k] == y);
                } else {
                    assert(r[p.len() as int] == y);
                }
            }
        }
    } else {
        assert forall|i: int, j: int| 0 <= i < j < r.len() implies before(
            #[trigger] r[i],
            #[trigger] r[j],
        ) by {
            assert(r[i] == list[i]);
            if j == list.len() {
                let last = list[list.len() - 1];
                assert(before(last, x));
                if i < list.len() - 1 {
                    assert(before(list[i], last));
                }
            } else {
                assert(r[j] == list[j]);
            }
        }
        assert forall|y: T| #[trigger] r.contains(y) <==> list.contains(y) || y == x by {
            if r.contains(y) && y != x {
                let i = choose|i: int| 0 <= i < r.len() && r[i] == y;
                assert(list[i] == y);
            }
            if list.contains(y) {
                let k = choose|k: int| 0 <= k < list.len() && list[k] == y;
                assert(r[k] == y);
            }
            assert(r[list.len() as int] == x);
        }
    }
}

/// Sorting puts the entries in order, and neither adds nor drops one.
pub proof fn sorting_orders<T>(list: Seq<T>, before: spec_fn(T, T) -> bool)
    requires
        transitive(before),
        comparable(list, before),
    ensures
        in_order(sorted(list, before), before),
        sorted(list, before).len() == list.len(),
        forall|y: T| #[trigger] sorted(list, before).contains(y) <==> list.contains(y),
    decreases list.len(),
{
    if list.len() > 0 {
        let front = list.drop_last();
        let last = list.last();
        assert(list[list.len() - 1] == last);
        assert forall|i: int, j: int| 0 <= i < j < front.len() implies before(
            #[trigger] front[i],
            #[trigger] front[j],
        ) || before(front[j], front[i]) by {
            assert(list[i] == front[i] && list[j] == front[j]);
        }
        sorting_orders(front, before);
        let so_far = sorted(front, before);
        assert forall|i: int| 0 <= i < so_far.len() implies before(#[trigger] so_far[i], last)
            || before(last, so_far[i]) by {
            assert(so_far.contains(so_far[i]));
            let k = choose|k: int| 0 <= k < front.len() && front[k] == so_far[i];
            assert(list[k] == so_far[i]);
        }
        placing_keeps_order(so_far, last, before);
        assert forall|y: T| #[trigger] sorted(list, before).contains(y) <==> list.contains(y) by {
            assert(so_far.contains(y) <==> front.contains(y));
            if front.contains(y) {
                let k = choose|k: int| 0 <= k < front.len() && front[k] == y;
                assert(list[k] == y);
            }
            if list.contains(y) && y != last {
                let k = choose|k: int| 0 <= k < list.len() && list[k] == y;
                assert(front[k] == y);
            }
        }
    }
}

/// A filter keeps the entries that it admits, and of any two of them one still comes
/// before the other.
pub proof fn filtering_keeps<T>(
    list: Seq<T>,
    keep: spec_fn(T) -> bool,
    before: spec_fn(T, T) -> bool,
)
    ensures
        forall|y: T| #[trigger] list.filter(keep).contains(y) <==> list.contains(y) && keep(y),
        comparable(list, before) ==> comparable(list.filter(keep), before),
    decreases list.len(),
{
    reveal(Seq::filter);
    let found = list.filter(keep);
    if list.len() > 0 {
        let front = list.drop_last();
        let last = list.last();
        let so_far = front.filter(keep);
        filtering_keeps(front, keep, before);
        assert(list[list.len() - 1] == last);
        assert forall|y: T| #[trigger] found.contains(y) <==> list.contains(y) && keep(y) by {
            assert(so_far.contains(y) <==> front.contains(y) && keep(y));
            if front.contains(y) {
                let k = choose|k: int| 0 <= k < front.len() && front[k] == y;
                assert(list[k] == y);
            }
            if list.contains(y) && y != last {
                let k = choose|k: int| 0 <= k < list.len() && list[k] == y;
                assert(front[k] == y);
            }
            if so_far.contains(y) {
                let k = choose|k: int| 0 <= k < so_far.len() && so_far[k] == y;
                assert(found[k] == y);
            }
            if keep(last) {
                assert(found[so_far.len() as int] == last);
            }
            if found.contains(y) {
                let k = choose|k: int| 0 <= k < found.len() && found[k] == y;
                if k < so_far.len() {
                    assert(so_far[k] == y);
                }
            }
        }
        if comparable(list, before) {
            assert forall|i: int, j: int| 0 <= i < j < front.len() implies before(
                #[trigger] front[i],
                #[trigger] front[j],
            ) || before(front[j], front[i]) by {
                assert(list[i] == front[i] && list[j] == front[j]);
            }
            assert forall|i: int, j: int| 0 <= i < j < found.len() implies before(
                #[trigger] found[i],
                #[trigger] found[j],
            ) || before(found[j], found[i]) by {
                assert(found[i] == so_far[i]);
                if j < so_far.len() {
                    assert(found[j] == so_far[j]);
                } else {
                    assert(so_far.contains(so_far[i]));
                    let k = choose|k: int| 0 <= k < front.len() && front[k] == so_far[i];
                    assert(list[k] == so_far[i]);
                }
            }
        }
    }
}

/// An ordered, limited list holds entries in the order, as many as the limit admits.
/// Where it leaves one out, it is full, and that one comes behind all that it holds.
pub proof fn limits_keep_the_first<T>(
    found: Seq<T>,
    before: spec_fn(T, T) -> bool,
    limit: usize,
)
    requires
        transitive(before),
        comparable(found, before),
    ensures
        ({
            let rows = limited(sorted(found, before), Some(limit));
            &&& rows.len() == admitted(found.len(), limit)
            &&& in_order(rows, before)
            &&& forall|y: T| #[trigger] rows.contains(y) ==> found.contains(y)
            &&& forall|y: T| #[trigger]
                found.contains(y) && !rows.contains(y) ==> rows.len() == limit && found.len()
                    > limit && forall|i: int| 0 <= i < rows.len() ==> before(#[trigger] rows[i], y)
        }),
{
    let all = sorted(found, before);
    let rows = limited(all, Some(limit));
    sorting_orders(found, before);
    assert forall|y: T| #[trigger] rows.contains(y) implies found.contains(y) by {
        let i = choose|i: int| 0 <= i < rows.len() && rows[i] == y;
        assert(all[i] == y);
        assert(all.contains(y));
    }
    assert forall|i: int, j: int| 0 <= i < j < rows.len() implies before(
        #[trigger] rows[i],
        #[trigger] rows[j],
    ) by {
        assert(rows[i] == all[i] && rows[j] == all[j]);
    }
    assert forall|y: T| #[trigger] found.contains(y) && !rows.contains(y) implies rows.len()
        == limit && found.len() > limit && forall|i: int|
        0 <= i < rows.len() ==> before(#[trigger] rows[i], y) by {
        assert(all.contains(y));
        let k = choose|k: int| 0 <= k < all.len() && all[k] == y;
        if k < rows.len() {
            assert(rows[k] == y);
        }
        assert forall|i: int| 0 <= i < rows.len() implies before(#[trigger] rows[i], y) by {
            assert(rows[i] == all[i]);
        }
    }
}

} // verus!
