//! The order of strings: by their characters' code points, from the first
//! character on.

use vstd::prelude::*;

use crate::text::chars_of;

verus! {

broadcast use vstd::string::group_string_axioms;

/// `a` comes strictly before `b`.
pub open spec fn precedes(a: Seq<char>, b: Seq<char>) -> bool
    decreases a.len(),
{
    if b.len() == 0 {
        false
    } else if a.len() == 0 {
        true
    } else if a[0] != b[0] {
        a[0] < b[0]
    } else {
        precedes(a.skip(1), b.skip(1))
    }
}

/// No text comes before itself.
pub proof fn precedes_irreflexive(a: Seq<char>)
    ensures
        !precedes(a, a),
    decreases a.len(),
{
    if a.len() > 0 {
        precedes_irreflexive(a.skip(1));
    }
}

/// The order is transitive.
pub proof fn precedes_transitive(a: Seq<char>, b: Seq<char>, c: Seq<char>)
    requires
        precedes(a, b),
        precedes(b, c),
    ensures
        precedes(a, c),
    decreases a.len(),
{
    if a.len() > 0 && b.len() > 0 && c.len() > 0 && a[0] == b[0] && b[0] == c[0] {
        precedes_transitive(a.skip(1), b.skip(1), c.skip(1));
    }
}

/// Of two different texts one comes before the other.
pub proof fn precedes_total(a: Seq<char>, b: Seq<char>)
    ensures
        a == b || precedes(a, b) || precedes(b, a),
    decreases a.len(),
{
    if a.len() == 0 {
        if b.len() == 0 {
            assert(a =~= b);
        }
    } else if b.len() > 0 && a[0] == b[0] {
        precedes_total(a.skip(1), b.skip(1));
        if a.skip(1) == b.skip(1) {
            assert(a =~= seq![a[0]] + a.skip(1));
            assert(b =~= seq![b[0]] + b.skip(1));
        }
    }
}

/// Whether `a` comes strictly before `b`.
pub fn comes_before(a: &str, b: &str) -> (r: bool)
    ensures
        r == precedes(a@, b@),
{
    let x = chars_of(a);
    let y = chars_of(b);
    let mut i: usize = 0;
    assert(a@.skip(0) =~= a@);
    assert(b@.skip(0) =~= b@);
    while i < x.len() && i < y.len()
        invariant
            i <= x@.len(),
            i <= y@.len(),
            x@ == a@,
            y@ == b@,
            precedes(a@.skip(i as int), b@.skip(i as int)) == precedes(a@, b@),
        decreases x@.len() - i,
    {
        let ghost p = a@.skip(i as int);
        let ghost q = b@.skip(i as int);
        assert(p[0] == x@[i as int] && q[0] == y@[i as int]);
        if x[i] != y[i] {
            return x[i] < y[i];
        }
        assert(p.skip(1) =~= a@.skip(i + 1));
        assert(q.skip(1) =~= b@.skip(i + 1));
        i += 1;
    }
    i < y.len()
}

/// The texts are in order; equal ones may follow one another.
pub open spec fn in_order(s: Seq<Seq<char>>) -> bool {
    forall|i: int, j: int| 0 <= i < j < s.len() ==> !precedes(#[trigger] s[j], #[trigger] s[i])
}

/// `a` before `b` and `b` not after `c` puts `a` before `c`.
proof fn precedes_then_not_after(a: Seq<char>, b: Seq<char>, c: Seq<char>)
    requires
        precedes(a, b),
        !precedes(c, b),
    ensures
        precedes(a, c),
{
    precedes_total(b, c);
    if precedes(b, c) {
        precedes_transitive(a, b, c);
    }
}

proof fn inserted_in_order(s: Seq<Seq<char>>, x: Seq<char>, at: int)
    requires
        in_order(s),
        0 <= at <= s.len(),
        forall|k: int| at <= k < s.len() ==> precedes(x, #[trigger] s[k]),
        at > 0 ==> !precedes(x, s[at - 1]),
    ensures
        in_order(s.insert(at, x)),
{
    let new = s.insert(at, x);
    assert forall|i: int, j: int| 0 <= i < j < new.len() implies !precedes(
        #[trigger] new[j],
        #[trigger] new[i],
    ) by {
        if j < at {
            assert(new[i] == s[i] && new[j] == s[j]);
        } else if j == at {
            assert(new[i] == s[i]);
            if precedes(x, s[i]) && i < at - 1 {
                assert(!precedes(s[at - 1], s[i]));
                precedes_then_not_after(x, s[i], s[at - 1]);
            }
        } else if i == at {
            assert(new[j] == s[j - 1]);
            if precedes(s[j - 1], x) {
                precedes_transitive(x, s[j - 1], x);
                precedes_irreflexive(x);
            }
        } else if i < at {
            assert(new[i] == s[i] && new[j] == s[j - 1]);
        } else {
            assert(new[i] == s[i - 1] && new[j] == s[j - 1]);
        }
    }
}

/// The same texts, in order.
pub fn sort(texts: &Vec<String>) -> (r: Vec<String>)
    ensures
        in_order(r.deep_view()),
        r.deep_view().to_multiset() == texts.deep_view().to_multiset(),
        r@.len() == texts@.len(),
{
    let mut r: Vec<String> = Vec::new();
    let ghost all = texts.deep_view();
    let mut i: usize = 0;
    assert(r.deep_view() =~= all.take(0));
    while i < texts.len()
        invariant
            i <= texts@.len(),
            all == texts.deep_view(),
            r@.len() == i,
            in_order(r.deep_view()),
            r.deep_view().to_multiset() == all.take(i as int).to_multiset(),
        decreases texts@.len() - i,
    {
        let x = texts[i].clone();
        let ghost before = r.deep_view();
        let mut at: usize = r.len();
        while at > 0 && comes_before(x.as_str(), r[at - 1].as_str())
            invariant
                at <= r@.len(),
                before == r.deep_view(),
                forall|k: int| at <= k < r@.len() ==> precedes(x@, #[trigger] before[k]),
            ensures
                at <= r@.len(),
                forall|k: int| at <= k < r@.len() ==> precedes(x@, #[trigger] before[k]),
                at > 0 ==> !precedes(x@, before[at - 1]),
            decreases at,
        {
            at -= 1;
        }
        proof {
            inserted_in_order(before, x@, at as int);
            vstd::seq_lib::to_multiset_insert(before, at as int, x@);
            vstd::seq_lib::to_multiset_build(all.take(i as int), all[i as int]);
            assert(all.take(i + 1) =~= all.take(i as int).push(all[i as int]));
            assert(all[i as int] == x@);
        }
        let ghost y = x@;
        r.insert(at, x);
        assert(r.deep_view() =~= before.insert(at as int, y));
        i += 1;
    }
    assert(all.take(i as int) =~= all);
    r
}

/// Texts in order are determined by which texts they are.
pub proof fn order_is_unique(a: Seq<Seq<char>>, b: Seq<Seq<char>>)
    requires
        in_order(a),
        in_order(b),
        a.to_multiset() == b.to_multiset(),
    ensures
        a == b,
    decreases a.len(),
{
    broadcast use vstd::seq_lib::group_to_multiset_ensures;

    assert(a.len() == a.to_multiset().len() && b.len() == b.to_multiset().len());
    if a.len() > 0 {
        let x = a.last();
        let y = b.last();
        assert(a.contains(x) && b.contains(y));
        assert(a.to_multiset().count(x) > 0);
        assert(b.to_multiset().count(y) > 0);
        assert(b.contains(x) && a.contains(y));
        let i = choose|i: int| 0 <= i < b.len() && b[i] == x;
        let j = choose|j: int| 0 <= j < a.len() && a[j] == y;
        if x != y {
            assert(!precedes(b[b.len() - 1], b[i]));
            assert(!precedes(a[a.len() - 1], a[j]));
            precedes_total(x, y);
        }
        assert(a.remove(a.len() - 1) =~= a.drop_last());
        assert(b.remove(b.len() - 1) =~= b.drop_last());
        assert(a.drop_last().to_multiset() == a.to_multiset().remove(x));
        assert(b.drop_last().to_multiset() == b.to_multiset().remove(y));
        order_is_unique(a.drop_last(), b.drop_last());
        assert(a =~= a.drop_last().push(x));
        assert(b =~= b.drop_last().push(y));
    } else {
        assert(a =~= b);
    }
}

/// The order is that of the first difference: texts that begin alike are ordered
/// by the characters in which they first differ, and a text comes before every
/// longer one that begins with it.
pub proof fn first_difference_decides(
    head: Seq<char>,
    c: char,
    d: char,
    x: Seq<char>,
    y: Seq<char>,
)
    ensures
        c < d ==> precedes(head.push(c) + x, head.push(d) + y),
        precedes(head, head.push(c) + x),
    decreases head.len(),
{
    let a = head.push(c) + x;
    let b = head.push(d) + y;
    if head.len() > 0 {
        let rest = head.skip(1);
        first_difference_decides(rest, c, d, x, y);
        assert(a.skip(1) =~= rest.push(c) + x);
        assert(b.skip(1) =~= rest.push(d) + y);
    }
}

} // verus!
