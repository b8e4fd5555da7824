//! Text: the string operations the queue is written with, over sequences of
//! characters.

use vstd::prelude::*;

verus! {

/// The characters of the Unicode property `White_Space`.
pub open spec fn is_white_space(c: char) -> bool {
    ||| '\u{9}' <= c <= '\u{d}'
    ||| c == ' '
    ||| c == '\u{85}'
    ||| c == '\u{a0}'
    ||| c == '\u{1680}'
    ||| '\u{2000}' <= c <= '\u{200a}'
    ||| c == '\u{2028}'
    ||| c == '\u{2029}'
    ||| c == '\u{202f}'
    ||| c == '\u{205f}'
    ||| c == '\u{3000}'
}

/// `s` without the white space it starts with.
pub open spec fn without_leading(s: Seq<char>) -> Seq<char>
    decreases s.len(),
{
    if s.len() > 0 && is_white_space(s[0]) {
        without_leading(s.drop_first())
    } else {
        s
    }
}

/// `s` without the white space it ends with.
pub open spec fn without_trailing(s: Seq<char>) -> Seq<char>
    decreases s.len(),
{
    if s.len() > 0 && is_white_space(s.last()) {
        without_trailing(s.drop_last())
    } else {
        s
    }
}

/// `s` without the white space at either end.
pub open spec fn trimmed(s: Seq<char>) -> Seq<char> {
    without_trailing(without_leading(s))
}

/// True when `s` holds nothing but white space.
pub open spec fn is_blank(s: Seq<char>) -> bool {
    trimmed(s).len() == 0
}

/// `str::trim` returns the text without leading and trailing characters of the
/// Unicode property `White_Space`.
pub assume_specification[ str::trim ](s: &str) -> (r: &str)
    ensures
        r@ == trimmed(s@),
;

/// `str::trim_start` returns the text without leading characters of the Unicode
/// property `White_Space`.
pub assume_specification[ str::trim_start ](s: &str) -> (r: &str)
    ensures
        r@ == without_leading(s@),
;

/// The lower case of an ASCII letter; every other character is its own.
pub open spec fn ascii_lower(c: char) -> char {
    if 'A' <= c <= 'Z' {
        ((c as int) + 32) as char
    } else {
        c
    }
}

/// `s` with its ASCII letters in lower case.
pub open spec fn ascii_lowered(s: Seq<char>) -> Seq<char> {
    s.map_values(|c: char| ascii_lower(c))
}

/// `str::to_ascii_lowercase` maps the letters `A` to `Z` to `a` to `z` and leaves
/// every other character as it is.
pub assume_specification[ str::to_ascii_lowercase ](s: &str) -> (r: String)
    ensures
        r@ == ascii_lowered(s@),
;

/// `==` on string slices compares the characters.
pub assume_specification[ <str as PartialEq>::eq ](a: &str, b: &str) -> (r: bool)
    ensures
        r == (a@ == b@),
;

/// `String::push` appends the character.
pub assume_specification[ String::push ](s: &mut String, c: char)
    ensures
        final(s)@ == old(s)@.push(c),
;

/// True when the two texts are the same.
pub fn same_text(a: &str, b: &str) -> (r: bool)
    ensures
        r == (a@ == b@),
{
    a.eq(b)
}

/// The digit that writes a number below ten.
pub open spec fn digit(d: nat) -> char {
    ((48 + d) as int) as char
}

/// The decimal notation of `n`.
pub open spec fn decimal(n: nat) -> Seq<char>
    decreases n,
{
    if n < 10 {
        seq![digit(n)]
    } else {
        decimal(n / 10).push(digit(n % 10))
    }
}

/// The decimal notation of `n`.
pub fn decimal_text(n: u64) -> (r: String)
    ensures
        r@ == decimal(n as nat),
    decreases n,
{
    let last: u8 = (n % 10) as u8;
    let c: char = (48 + last) as char;
    let mut out: String = if n < 10 {
        String::new()
    } else {
        decimal_text(n / 10)
    };
    out.push(c);
    proof {
        if n < 10 {
            assert(out@ =~= seq![digit(n as nat)]);
        }
    }
    out
}

/// The number that a sequence of digits writes.
pub open spec fn value_of(s: Seq<char>) -> int
    decreases s.len(),
{
    if s.len() == 0 {
        0
    } else {
        value_of(s.drop_last()) * 10 + (s.last() as int - 48)
    }
}

/// The decimal notation of a number writes that number.
pub proof fn decimal_has_its_value(n: nat)
    ensures
        value_of(decimal(n)) == n,
    decreases n,
{
    reveal_with_fuel(value_of, 2);
    if n < 10 {
        assert(decimal(n).drop_last() =~= Seq::<char>::empty());
        assert(decimal(n).last() == digit(n));
    } else {
        assert(decimal(n).last() == digit(n % 10));
        decimal_has_its_value(n / 10);
        assert(decimal(n).drop_last() =~= decimal(n / 10));
    }
}

/// `s` with zeros before it up to the given width.
pub open spec fn zero_padded(s: Seq<char>, width: nat) -> Seq<char>
    decreases width - s.len(),
{
    if s.len() >= width {
        s
    } else {
        zero_padded(seq!['0'] + s, width)
    }
}

/// The decimal notation of `n`, with zeros before it up to the given width.
pub fn padded_decimal_text(n: u64, width: usize) -> (r: String)
    ensures
        r@ == zero_padded(decimal(n as nat), width as nat),
{
    let mut out: String = decimal_text(n);
    while out.unicode_len() < width
        invariant
            zero_padded(out@, width as nat) == zero_padded(decimal(n as nat), width as nat),
        decreases width - out@.len(),
    {
        out = "0".to_owned().concat(out.as_str());
        proof {
            reveal_strlit("0");
            assert("0"@ =~= seq!['0']);
        }
    }
    out
}

/// `needle` stands in `hay` at this place.
pub open spec fn contains_at(hay: Seq<char>, needle: Seq<char>, at: int) -> bool {
    0 <= at && at + needle.len() <= hay.len() && hay.subrange(at, at + needle.len()) == needle
}

/// True when `needle` stands somewhere in `hay`.
pub open spec fn has_text(hay: Seq<char>, needle: Seq<char>) -> bool {
    exists|at: int| #[trigger] contains_at(hay, needle, at)
}

/// `str::contains` tells whether a text stands somewhere in another.
#[verifier::external_body]
pub(crate) fn contains_text(hay: &str, needle: &str) -> (r: bool)
    ensures
        r == has_text(hay@, needle@),
{
    hay.contains(needle)
}

/// The sequence of texts, one after the other with `sep` between them.
pub open spec fn joined(parts: Seq<Seq<char>>, sep: Seq<char>) -> Seq<char>
    decreases parts.len(),
{
    if parts.len() == 0 {
        Seq::<char>::empty()
    } else if parts.len() == 1 {
        parts[0]
    } else {
        joined(parts.drop_last(), sep) + sep + parts.last()
    }
}

/// The texts one after the other with `sep` between them.
pub fn join(parts: &Vec<String>, sep: &str) -> (r: String)
    ensures
        r@ == joined(parts.deep_view(), sep@),
{
    let mut out: String = String::new();
    let mut i: usize = 0;
    while i < parts.len()
        invariant
            i <= parts.len(),
            out@ == joined(parts.deep_view().take(i as int), sep@),
        decreases parts.len() - i,
    {
        if i > 0 {
            out.append(sep);
        }
        out.append(parts[i].as_str());
        proof {
            let all = parts.deep_view();
            assert(all.take(i + 1).drop_last() =~= all.take(i as int));
            assert(all.take(i + 1).last() == parts[i as int]@);
            if i == 0 {
                assert(out@ =~= all.take(1)[0]);
            }
        }
        i += 1;
    }
    proof {
        assert(parts.deep_view().take(i as int) =~= parts.deep_view());
    }
    out
}

/// True when `text` is one of `list`.
pub fn list_has(list: &Vec<String>, text: &str) -> (r: bool)
    ensures
        r == list.deep_view().contains(text@),
{
    let mut i: usize = 0;
    while i < list.len()
        invariant
            i <= list.len(),
            forall|j: int| 0 <= j < i ==> list.deep_view()[j] != text@,
        decreases list.len() - i,
    {
        if same_text(list[i].as_str(), text) {
            assert(list.deep_view()[i as int] == text@);
            return true;
        }
        i += 1;
    }
    false
}

/// The characters of a text.
pub fn chars_of(s: &str) -> (r: Vec<char>)
    ensures
        r@ == s@,
{
    let mut out: Vec<char> = Vec::new();
    for c in it: s.chars()
        invariant
            it.seq() == s@,
            out@ == s@.take(it.index()),
    {
        out.push(c);
        proof {
            assert(s@.take(it.index() + 1) =~= s@.take(it.index()).push(s@[it.index()]));
        }
    }
    proof {
        assert(s@.take(s@.len() as int) =~= s@);
    }
    out
}

/// `a` stands before `b` in the order of code points.
pub open spec fn lex_less(a: Seq<char>, b: Seq<char>) -> bool
    decreases a.len(),
{
    if b.len() == 0 {
        false
    } else if a.len() == 0 {
        true
    } else if a[0] == b[0] {
        lex_less(a.drop_first(), b.drop_first())
    } else {
        a[0] < b[0]
    }
}

/// True when `a` stands before `b` in the order of code points, which is the order
/// of their UTF-8 bytes.
pub fn text_less(a: &str, b: &str) -> (r: bool)
    ensures
        r == lex_less(a@, b@),
{
    let xs: Vec<char> = chars_of(a);
    let ys: Vec<char> = chars_of(b);
    let mut i: usize = 0;
    proof {
        assert(a@.skip(0) =~= a@);
        assert(b@.skip(0) =~= b@);
    }
    while i < xs.len() && i < ys.len()
        invariant
            xs@ == a@,
            ys@ == b@,
            i <= xs.len(),
            i <= ys.len(),
            lex_less(a@, b@) == lex_less(a@.skip(i as int), b@.skip(i as int)),
        decreases xs.len() - i,
    {
        proof {
            assert(a@.skip(i as int)[0] == xs[i as int]);
            assert(b@.skip(i as int)[0] == ys[i as int]);
            assert(a@.skip(i as int).drop_first() =~= a@.skip(i + 1));
            assert(b@.skip(i as int).drop_first() =~= b@.skip(i + 1));
        }
        if xs[i] != ys[i] {
            return xs[i] < ys[i];
        }
        i += 1;
    }
    i < ys.len()
}

/// `a` stands before `b` when the case of ASCII letters is left aside.
pub open spec fn lower_less(a: Seq<char>, b: Seq<char>) -> bool {
    lex_less(ascii_lowered(a), ascii_lowered(b))
}

/// `list` with `x` put behind the last text that does not stand after it.
pub open spec fn placed(list: Seq<Seq<char>>, x: Seq<char>) -> Seq<Seq<char>>
    decreases list.len(),
{
    if list.len() > 0 && lower_less(x, list.last()) {
        placed(list.drop_last(), x).push(list.last())
    } else {
        list.push(x)
    }
}

/// `list` in ascending order without regard to ASCII case; texts that differ only
/// in case keep their order.
pub open spec fn case_blind_sorted(list: Seq<Seq<char>>) -> Seq<Seq<char>>
    decreases list.len(),
{
    if list.len() == 0 {
        list
    } else {
        placed(case_blind_sorted(list.drop_last()), list.last())
    }
}

/// True when `a` stands before `b` without regard to ASCII case.
pub fn text_lower_less(a: &str, b: &str) -> (r: bool)
    ensures
        r == lower_less(a@, b@),
{
    text_less(a.to_ascii_lowercase().as_str(), b.to_ascii_lowercase().as_str())
}

fn place(list: &mut Vec<String>, x: String)
    ensures
        final(list).deep_view() == placed(old(list).deep_view(), x@),
    decreases old(list).len(),
{
    let n: usize = list.len();
    if n > 0 && text_lower_less(x.as_str(), list[n - 1].as_str()) {
        let ghost before = list.deep_view();
        match list.pop() {
            Some(last) => {
                let ghost tail = last@;
                proof {
                    assert(list.deep_view() =~= before.drop_last());
                    assert(tail == before.last());
                }
                place(list, x);
                let ghost middle = list.deep_view();
                list.push(last);
                proof {
                    assert(list.deep_view() =~= middle.push(tail));
                }
            },
            None => {},
        }
    } else {
        let ghost before = list.deep_view();
        let ghost xs = x@;
        list.push(x);
        proof {
            assert(list.deep_view() =~= before.push(xs));
        }
    }
}

/// The list in ascending order without regard to ASCII case; texts that differ
/// only in case keep their order.
pub fn sort_case_blind(list: Vec<String>) -> (r: Vec<String>)
    ensures
        r.deep_view() == case_blind_sorted(list.deep_view()),
{
    let mut out: Vec<String> = Vec::new();
    let ghost all = list.deep_view();
    proof {
        assert(out.deep_view() =~= Seq::<Seq<char>>::empty());
        assert(all.take(0) =~= Seq::<Seq<char>>::empty());
    }
    for x in it: list
        invariant
            it.seq().len() == all.len(),
            forall|i: int| 0 <= i < all.len() ==> (#[trigger] it.seq()[i])@ == all[i],
            out.deep_view() == case_blind_sorted(all.take(it.index())),
    {
        proof {
            let n = it.index();
            assert(all.take(n + 1).drop_last() =~= all.take(n));
            assert(all.take(n + 1).last() == all[n]);
        }
        place(&mut out, x);
    }
    proof {
        assert(all.take(all.len() as int) =~= all);
    }
    out
}

/// No text stands before itself.
pub proof fn lex_less_irreflexive(a: Seq<char>)
    ensures
        !lex_less(a, a),
    decreases a.len(),
{
    if a.len() > 0 {
        lex_less_irreflexive(a.drop_first());
    }
}

/// The order of texts is transitive.
pub proof fn lex_less_transitive(a: Seq<char>, b: Seq<char>, c: Seq<char>)
    requires
        lex_less(a, b),
        lex_less(b, c),
    ensures
        lex_less(a, c),
    decreases a.len(),
{
    if a.len() > 0 && a[0] == b[0] && b[0] == c[0] {
        lex_less_transitive(a.drop_first(), b.drop_first(), c.drop_first());
    }
}

/// Of two different texts one stands before the other.
pub proof fn lex_less_total(a: Seq<char>, b: Seq<char>)
    ensures
        a == b || lex_less(a, b) || lex_less(b, a),
    decreases a.len(),
{
    if a.len() == 0 {
        if b.len() == 0 {
            assert(a =~= b);
        }
    } else if b.len() > 0 && a[0] == b[0] {
        lex_less_total(a.drop_first(), b.drop_first());
        if a.drop_first() == b.drop_first() {
            assert(a =~= seq![a[0]] + a.drop_first());
            assert(b =~= seq![b[0]] + b.drop_first());
        }
    }
}

/// No text of `list` stands before an earlier one, when case is left aside.
pub open spec fn in_case_blind_order(list: Seq<Seq<char>>) -> bool {
    forall|i: int, j: int|
        0 <= i < j < list.len() ==> !lower_less(#[trigger] list[j], #[trigger] list[i])
}

proof fn lower_less_transitive(a: Seq<char>, b: Seq<char>, c: Seq<char>)
    ensures
        lower_less(a, b) && lower_less(b, c) ==> lower_less(a, c),
        !lower_less(b, a) && !lower_less(c, b) ==> !lower_less(c, a),
        lower_less(a, b) ==> !lower_less(b, a),
{
    let la = ascii_lowered(a);
    let lb = ascii_lowered(b);
    let lc = ascii_lowered(c);
    lex_less_irreflexive(la);
    if lex_less(la, lb) && lex_less(lb, lc) {
        lex_less_transitive(la, lb, lc);
    }
    if lex_less(la, lb) && lex_less(lb, la) {
        lex_less_transitive(la, lb, la);
    }
    if !lex_less(lb, la) && !lex_less(lc, lb) && lex_less(lc, la) {
        lex_less_total(la, lb);
        lex_less_total(lb, lc);
        if lex_less(la, lb) {
            lex_less_transitive(lc, la, lb);
        }
    }
}

proof fn placing_keeps_order(list: Seq<Seq<char>>, x: Seq<char>)
    requires
        in_case_blind_order(list),
    ensures
        in_case_blind_order(placed(list, x)),
        forall|y: Seq<char>| #[trigger] placed(list, x).contains(y) <==> list.contains(y) || y == x,
        placed(list, x).to_multiset() == list.to_multiset().insert(x),
    decreases list.len(),
{
    broadcast use vstd::seq_lib::group_to_multiset_ensures;

    let r = placed(list, x);
    if list.len() > 0 && lower_less(x, list.last()) {
        let front = list.drop_last();
        let last = list.last();
        placing_keeps_order(front, x);
        let p = placed(front, x);
        assert(front.push(last) =~= list);
        assert(r == p.push(last));
        assert forall|y: Seq<char>| #[trigger] r.contains(y) <==> list.contains(y) || y == x by {
            if r.contains(y) {
                let i = choose|i: int| 0 <= i < r.len() && r[i] == y;
                if i < p.len() {
                    assert(p[i] == y);
                    assert(p.contains(y));
                    if front.contains(y) {
                        let k = choose|k: int| 0 <= k < front.len() && front[k] == y;
                        assert(list[k] == y);
                    }
                } else {
                    assert(list[list.len() - 1] == y);
                }
            }
            if list.contains(y) || y == x {
                if y == last {
                    assert(r[p.len() as int] == y);
                } else {
                    if list.contains(y) {
                        let k = choose|k: int| 0 <= k < list.len() && list[k] == y;
                        assert(front[k] == y);
                    }
                    assert(p.contains(y));
                    let i = choose|i: int| 0 <= i < p.len() && p[i] == y;
                    assert(r[i] == y);
                }
            }
        }
        assert forall|i: int, j: int| 0 <= i < j < r.len() implies !lower_less(
            #[trigger] r[j],
            #[trigger] r[i],
        ) by {
            if j == p.len() {
                assert(r[i] == p[i]);
                assert(p.contains(p[i]));
                if p[i] == x {
                    lower_less_transitive(x, last, x);
                } else {
                    let k = choose|k: int| 0 <= k < front.len() && front[k] == p[i];
                    assert(list[k] == p[i]);
                    assert(list[list.len() - 1] == last);
                }
            } else {
                assert(r[i] == p[i] && r[j] == p[j]);
            }
        }
        assert(r.to_multiset() =~= list.to_multiset().insert(x));
    } else {
        assert(r == list.push(x));
        assert forall|y: Seq<char>| #[trigger] r.contains(y) <==> list.contains(y) || y == x by {
            if r.contains(y) && y != x {
                let i = choose|i: int| 0 <= i < r.len() && r[i] == y;
                assert(list[i] == y);
            }
            if list.contains(y) {
                let i = choose|i: int| 0 <= i < list.len() && list[i] == y;
                assert(r[i] == y);
            }
            assert(r[list.len() as int] == x);
        }
        assert forall|i: int, j: int| 0 <= i < j < r.len() implies !lower_less(
            #[trigger] r[j],
            #[trigger] r[i],
        ) by {
            if j == list.len() {
                let last = list[list.len() - 1];
                if i < list.len() - 1 {
                    assert(!lower_less(last, list[i]));
                    lower_less_transitive(list[i], last, x);
                }
            } else {
                assert(r[i] == list[i] && r[j] == list[j]);
            }
        }
        assert(r.to_multiset() =~= list.to_multiset().insert(x));
    }
}

/// The case-blind order of a list holds the texts of the list, each as often as
/// the list does, and puts none behind one that stands after it.
pub proof fn sorting_orders_and_keeps(list: Seq<Seq<char>>)
    ensures
        in_case_blind_order(case_blind_sorted(list)),
        case_blind_sorted(list).to_multiset() == list.to_multiset(),
        forall|y: Seq<char>| #[trigger]
            case_blind_sorted(list).contains(y) <==> list.contains(y),
    decreases list.len(),
{
    broadcast use vstd::seq_lib::group_to_multiset_ensures;

    if list.len() > 0 {
        let front = list.drop_last();
        sorting_orders_and_keeps(front);
        placing_keeps_order(case_blind_sorted(front), list.last());
        assert(front.push(list.last()) =~= list);
        assert forall|y: Seq<char>| #[trigger]
            case_blind_sorted(list).contains(y) <==> list.contains(y) by {
            assert(case_blind_sorted(front).contains(y) <==> front.contains(y));
            if front.contains(y) {
                let i = choose|i: int| 0 <= i < front.len() && front[i] == y;
                assert(list[i] == y);
            }
            if list.contains(y) && y != list.last() {
                let i = choose|i: int| 0 <= i < list.len() && list[i] == y;
                assert(front[i] == y);
            }
            assert(list[list.len() - 1] == list.last());
        }
    }
}

/// Each text of `list` stands before every later one, when case is left aside.
pub open spec fn ascends(list: Seq<Seq<char>>) -> bool {
    forall|i: int, j: int|
        0 <= i < j < list.len() ==> lower_less(#[trigger] list[i], #[trigger] list[j])
}

/// Two ascending lists of the same texts are the same list.
pub proof fn ascending_lists_are_unique(a: Seq<Seq<char>>, b: Seq<Seq<char>>)
    requires
        ascends(a),
        ascends(b),
        forall|y: Seq<char>| #[trigger] a.contains(y) <==> b.contains(y),
    ensures
        a == b,
    decreases a.len(),
{
    if a.len() == 0 {
        if b.len() > 0 {
            assert(b.contains(b[0]));
            assert(a.contains(b[0]));
        }
        assert(a =~= b);
    } else {
        let x = a.last();
        assert(a[a.len() - 1] == x);
        assert(a.contains(x));
        let j = choose|j: int| 0 <= j < b.len() && b[j] == x;
        let y = b.last();
        assert(b[b.len() - 1] == y);
        assert(b.contains(y));
        assert(a.contains(y));
        let k = choose|k: int| 0 <= k < a.len() && a[k] == y;
        if j < b.len() - 1 {
            assert(lower_less(b[j], b[b.len() - 1]));
            if k < a.len() - 1 {
                assert(lower_less(a[k], a[a.len() - 1]));
            }
            lower_less_transitive(x, y, x);
            lex_less_irreflexive(ascii_lowered(x));
        }
        assert(x == y);
        let fa = a.drop_last();
        let fb = b.drop_last();
        assert forall|z: Seq<char>| #[trigger] fa.contains(z) <==> fb.contains(z) by {
            lex_less_irreflexive(ascii_lowered(z));
            if fa.contains(z) {
                let i = choose|i: int| 0 <= i < fa.len() && fa[i] == z;
                assert(a[i] == z);
                assert(lower_less(a[i], a[a.len() - 1]));
                assert(a.contains(z));
                let m = choose|m: int| 0 <= m < b.len() && b[m] == z;
                assert(fb[m] == z);
            }
            if fb.contains(z) {
                let i = choose|i: int| 0 <= i < fb.len() && fb[i] == z;
                assert(b[i] == z);
                assert(lower_less(b[i], b[b.len() - 1]));
                assert(b.contains(z));
                assert(a.contains(z));
                let m = choose|m: int| 0 <= m < a.len() && a[m] == z;
                assert(fa[m] == z);
            }
        }
        ascending_lists_are_unique(fa, fb);
        assert(a =~= fa.push(x));
        assert(b =~= fb.push(y));
    }
}

/// What two texts begin with alike does not decide their order.
pub proof fn common_beginnings_do_not_order(begin: Seq<char>, a: Seq<char>, b: Seq<char>)
    ensures
        lex_less(begin + a, begin + b) == lex_less(a, b),
    decreases begin.len(),
{
    if begin.len() == 0 {
        assert(begin + a =~= a);
        assert(begin + b =~= b);
    } else {
        let rest = begin.drop_first();
        common_beginnings_do_not_order(rest, a, b);
        assert((begin + a).drop_first() =~= rest + a);
        assert((begin + b).drop_first() =~= rest + b);
    }
}

} // verus!
