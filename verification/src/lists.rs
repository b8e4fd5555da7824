//! Lists of texts that hold nothing twice, in the order their texts came.

use vstd::prelude::*;

use crate::text::{
    ascends, ascii_lowered, in_case_blind_order, lex_less_irreflexive, lex_less_total, list_has,
    lower_less, same_text, trimmed,
};

verus! {

/// `list`, and behind it the texts of `added` that are not there yet, in their
/// order.
pub open spec fn merged(list: Seq<Seq<char>>, added: Seq<Seq<char>>) -> Seq<Seq<char>>
    decreases added.len(),
{
    if added.len() == 0 {
        list
    } else {
        let so_far = merged(list, added.drop_last());
        if so_far.contains(added.last()) {
            so_far
        } else {
            so_far.push(added.last())
        }
    }
}

/// The texts of `list`, each where it came first.
pub open spec fn first_occurrences(list: Seq<Seq<char>>) -> Seq<Seq<char>> {
    merged(Seq::empty(), list)
}

/// The texts of `list` without the white space around them, blank ones left out.
pub open spec fn filled(list: Seq<Seq<char>>) -> Seq<Seq<char>>
    decreases list.len(),
{
    if list.len() == 0 {
        list
    } else if trimmed(list.last()).len() == 0 {
        filled(list.drop_last())
    } else {
        filled(list.drop_last()).push(trimmed(list.last()))
    }
}

/// The texts of `list` without the white space around them, each where it came
/// first, blank ones left out.
pub open spec fn unique_ids(list: Seq<Seq<char>>) -> Seq<Seq<char>> {
    first_occurrences(filled(list))
}

/// Append a text unless it is there.
pub fn push_new(list: &mut Vec<String>, text: &str)
    ensures
        final(list).deep_view() == (if old(list).deep_view().contains(text@) {
            old(list).deep_view()
        } else {
            old(list).deep_view().push(text@)
        }),
{
    if !list_has(list, text) {
        let ghost before = list.deep_view();
        list.push(text.to_owned());
        proof {
            assert(list.deep_view() =~= before.push(text@));
        }
    }
}

/// Append the texts that are not there yet, in their order.
pub fn merge_into(list: &mut Vec<String>, added: &Vec<String>)
    ensures
        final(list).deep_view() == merged(old(list).deep_view(), added.deep_view()),
{
    let ghost start = list.deep_view();
    let ghost all = added.deep_view();
    let mut i: usize = 0;
    proof {
        assert(all.take(0) =~= Seq::<Seq<char>>::empty());
    }
    while i < added.len()
        invariant
            i <= added.len(),
            all == added.deep_view(),
            list.deep_view() == merged(start, all.take(i as int)),
        decreases added.len() - i,
    {
        push_new(list, added[i].as_str());
        proof {
            assert(all.take(i + 1).drop_last() =~= all.take(i as int));
            assert(all.take(i + 1).last() == added[i as int]@);
        }
        i += 1;
    }
    proof {
        assert(all.take(i as int) =~= all);
    }
}

/// The texts of a list, each where it came first.
pub fn without_repeats(list: &Vec<String>) -> (r: Vec<String>)
    ensures
        r.deep_view() == first_occurrences(list.deep_view()),
{
    let mut out: Vec<String> = Vec::new();
    proof {
        assert(out.deep_view() =~= Seq::<Seq<char>>::empty());
    }
    merge_into(&mut out, list);
    out
}

/// The texts without the white space around them, blank ones left out.
pub fn filled_texts(list: &Vec<String>) -> (r: Vec<String>)
    ensures
        r.deep_view() == filled(list.deep_view()),
{
    let mut out: Vec<String> = Vec::new();
    let ghost all = list.deep_view();
    let mut i: usize = 0;
    proof {
        assert(out.deep_view() =~= all.take(0));
    }
    while i < list.len()
        invariant
            i <= list.len(),
            all == list.deep_view(),
            out.deep_view() == filled(all.take(i as int)),
        decreases list.len() - i,
    {
        let text: &str = list[i].as_str().trim();
        let ghost before = out.deep_view();
        if !text.is_empty() {
            out.push(text.to_owned());
            proof {
                assert(out.deep_view() =~= before.push(text@));
            }
        }
        proof {
            assert(all.take(i + 1).drop_last() =~= all.take(i as int));
            assert(all.take(i + 1).last() == list[i as int]@);
        }
        i += 1;
    }
    proof {
        assert(all.take(i as int) =~= all);
    }
    out
}

/// The ids of a list: trimmed, each where it came first, blank ones left out.
pub fn distinct_ids(list: &Vec<String>) -> (r: Vec<String>)
    ensures
        r.deep_view() == unique_ids(list.deep_view()),
{
    without_repeats(&filled_texts(list))
}

/// `list` without the texts that repeat the one before them.
pub open spec fn runs_collapsed(list: Seq<Seq<char>>) -> Seq<Seq<char>>
    decreases list.len(),
{
    if list.len() == 0 {
        list
    } else {
        let so_far = runs_collapsed(list.drop_last());
        if so_far.len() > 0 && so_far.last() == list.last() {
            so_far
        } else {
            so_far.push(list.last())
        }
    }
}

/// A list without the texts that repeat the one before them.
pub fn collapse_runs(list: Vec<String>) -> (r: Vec<String>)
    ensures
        r.deep_view() == runs_collapsed(list.deep_view()),
{
    let mut out: Vec<String> = Vec::new();
    let ghost all = list.deep_view();
    proof {
        assert(out.deep_view() =~= all.take(0));
    }
    for x in it: list
        invariant
            it.seq().len() == all.len(),
            forall|i: int| 0 <= i < all.len() ==> (#[trigger] it.seq()[i])@ == all[i],
            out.deep_view() == runs_collapsed(all.take(it.index())),
    {
        let ghost before = out.deep_view();
        let ghost xs = x@;
        proof {
            let n = it.index();
            assert(all.take(n + 1).drop_last() =~= all.take(n));
            assert(all.take(n + 1).last() == all[n]);
        }
        let len: usize = out.len();
        let repeats: bool = len > 0 && same_text(out[len - 1].as_str(), x.as_str());
        if !repeats {
            out.push(x);
            proof {
                assert(out.deep_view() =~= before.push(xs));
            }
        }
    }
    proof {
        assert(all.take(all.len() as int) =~= all);
    }
    out
}

/// Merging keeps the list it starts from as it is, adds nothing twice, and ends
/// with the texts of both.
pub proof fn merging_extends(list: Seq<Seq<char>>, added: Seq<Seq<char>>)
    ensures
        list.is_prefix_of(merged(list, added)),
        list.no_duplicates() ==> merged(list, added).no_duplicates(),
        forall|x: Seq<char>|
            #[trigger] merged(list, added).contains(x) <==> list.contains(x) || added.contains(x),
    decreases added.len(),
{
    if added.len() > 0 {
        let so_far = merged(list, added.drop_last());
        let last = added.last();
        merging_extends(list, added.drop_last());
        assert(added =~= added.drop_last().push(last));
        assert(added.contains(last));
        assert forall|x: Seq<char>|
            #[trigger] merged(list, added).contains(x) <==> list.contains(x) || added.contains(
                x,
            ) by {
            if added.drop_last().contains(x) {
                let i = choose|i: int|
                    0 <= i < added.drop_last().len() && added.drop_last()[i] == x;
                assert(added[i] == x);
            }
            if added.contains(x) && x != last {
                let i = choose|i: int| 0 <= i < added.len() && added[i] == x;
                assert(added.drop_last()[i] == x);
            }
            if !so_far.contains(last) {
                let m = so_far.push(last);
                assert(m[so_far.len() as int] == last);
                if so_far.contains(x) {
                    let i = choose|i: int| 0 <= i < so_far.len() && so_far[i] == x;
                    assert(m[i] == x);
                }
                if m.contains(x) && x != last {
                    let i = choose|i: int| 0 <= i < m.len() && m[i] == x;
                    assert(so_far[i] == x);
                }
            }
        }
    }
}

/// Merging what is already there changes nothing.
pub proof fn merging_again_adds_nothing(list: Seq<Seq<char>>, added: Seq<Seq<char>>)
    requires
        forall|x: Seq<char>| added.contains(x) ==> list.contains(x),
    ensures
        merged(list, added) == list,
    decreases added.len(),
{
    if added.len() > 0 {
        assert forall|x: Seq<char>| added.drop_last().contains(x) implies list.contains(x) by {
            let i = choose|i: int| 0 <= i < added.drop_last().len() && added.drop_last()[i] == x;
            assert(added[i] == x);
        }
        merging_again_adds_nothing(list, added.drop_last());
        assert(added[added.len() - 1] == added.last());
        assert(added.contains(added.last()));
    }
}

/// No two texts of `list` differ in the case of ASCII letters alone.
pub open spec fn case_tells_apart_none(list: Seq<Seq<char>>) -> bool {
    forall|x: Seq<char>, y: Seq<char>|
        list.contains(x) && list.contains(y) && #[trigger] ascii_lowered(x)
            == #[trigger] ascii_lowered(y) ==> x == y
}

/// Collapsing the runs of an ordered list leaves each of its texts once, in
/// ascending order.
pub proof fn collapsing_leaves_each_once(list: Seq<Seq<char>>)
    requires
        in_case_blind_order(list),
        case_tells_apart_none(list),
    ensures
        ascends(runs_collapsed(list)),
        forall|y: Seq<char>| #[trigger] runs_collapsed(list).contains(y) <==> list.contains(y),
        list.len() > 0 ==> runs_collapsed(list).len() > 0 && runs_collapsed(list).last()
            == list.last(),
    decreases list.len(),
{
    if list.len() > 0 {
        let front = list.drop_last();
        let last = list.last();
        assert(list[list.len() - 1] == last);
        assert(list.contains(last));
        assert forall|y: Seq<char>| #[trigger] front.contains(y) implies list.contains(y) by {
            let i = choose|i: int| 0 <= i < front.len() && front[i] == y;
            assert(list[i] == y);
        }
        collapsing_leaves_each_once(front);
        let so_far = runs_collapsed(front);
        let r = runs_collapsed(list);
        assert forall|y: Seq<char>| #[trigger] r.contains(y) <==> list.contains(y) by {
            assert(so_far.contains(y) <==> front.contains(y));
            if list.contains(y) && y != last {
                let i = choose|i: int| 0 <= i < list.len() && list[i] == y;
                assert(front[i] == y);
                let k = choose|k: int| 0 <= k < so_far.len() && so_far[k] == y;
                assert(r[k] == y);
            }
            if r.contains(y) && y != last {
                let i = choose|i: int| 0 <= i < r.len() && r[i] == y;
                assert(so_far[i] == y);
            }
            assert(r[r.len() - 1] == last);
        }
        if !(so_far.len() > 0 && so_far.last() == last) {
            assert(r == so_far.push(last));
            assert forall|i: int, j: int| 0 <= i < j < r.len() implies lower_less(
                #[trigger] r[i],
                #[trigger] r[j],
            ) by {
                if j == so_far.len() {
                    let x = so_far[i];
                    assert(so_far.contains(x));
                    let k = choose|k: int| 0 <= k < front.len() && front[k] == x;
                    assert(list[k] == x);
                    assert(list.contains(x));
                    assert(!lower_less(list[list.len() - 1], list[k]));
                    lex_less_total(ascii_lowered(x), ascii_lowered(last));
                    if x == last {
                        // then the texts between them are the same, and so is the last one
                        let z = front.last();
                        assert(front[front.len() - 1] == z);
                        assert(list[front.len() - 1] == z);
                        assert(list.contains(z));
                        if k < front.len() - 1 {
                            assert(!lower_less(list[front.len() - 1], list[k]));
                        }
                        assert(!lower_less(list[list.len() - 1], list[front.len() - 1]));
                        lex_less_irreflexive(ascii_lowered(x));
                        lex_less_total(ascii_lowered(x), ascii_lowered(z));
                        assert(z == last);
                        assert(false);
                    }
                } else {
                    assert(r[i] == so_far[i] && r[j] == so_far[j]);
                }
            }
        }
    }
}

} // verus!
