//! Splitting text into lines, words and parts, joining parts, and replacing
//! one piece of text by another.

use vstd::prelude::*;

use crate::text::{self, chars_of, find_chars, is_whitespace, leading, slice_of, stands_at};

verus! {

broadcast use vstd::string::group_string_axioms;

// ── Lines ───────────────────────────────────────────────────────────────────

/// A line without the carriage return before its line feed.
pub open spec fn without_cr(s: Seq<char>) -> Seq<char> {
    if s.len() > 0 && s.last() == '\r' {
        s.drop_last()
    } else {
        s
    }
}

/// The lines of a text: each ends at a line feed, which may follow a carriage
/// return; what follows the last line feed is a line unless it is empty.
pub open spec fn lines_of(s: Seq<char>) -> Seq<Seq<char>>
    decreases s.len(),
{
    if s.len() == 0 {
        Seq::empty()
    } else {
        let n = text::lead(s, text::but('\n')) as int;
        if n >= s.len() {
            seq![s]
        } else {
            seq![without_cr(s.take(n))] + lines_of(s.skip(n + 1))
        }
    }
}

/// The lines of a text.
pub fn lines(s: &str) -> (r: Vec<String>)
    ensures
        r.deep_view() == lines_of(s@),
{
    let cs = chars_of(s);
    let len: usize = cs.len();
    let mut out: Vec<String> = Vec::new();
    let mut from: usize = 0;
    assert(s@.skip(0) =~= s@);
    assert(out.deep_view() =~= Seq::<Seq<char>>::empty());
    while from < len
        invariant
            from <= len,
            len == s@.len(),
            cs@ == s@,
            out.deep_view() + lines_of(s@.skip(from as int)) == lines_of(s@),
        decreases len - from,
    {
        let ghost rest = s@.skip(from as int);
        let ghost before = out.deep_view();
        let tail = vstd::slice::slice_subrange(cs.as_slice(), from, len);
        assert(tail@ =~= rest);
        let f = |c: char| -> (b: bool)
            ensures
                b == (c != '\n'),
            { c != '\n' };
        let n: usize = leading(tail, f, Ghost(text::but('\n')));
        if n == tail.len() {
            let line = slice_of(cs.as_slice(), from, len);
            assert(line@ =~= rest);
            out.push(line);
            assert(out.deep_view() =~= before.push(rest));
            from = len;
            assert(s@.skip(from as int) =~= Seq::<char>::empty());
            assert(lines_of(s@) =~= out.deep_view() + Seq::<Seq<char>>::empty());
        } else {
            let end: usize = if n > 0 && cs[from + n - 1] == '\r' {
                from + n - 1
            } else {
                from + n
            };
            let line = slice_of(cs.as_slice(), from, end);
            assert(rest.take(n as int) =~= s@.subrange(from as int, from + n));
            assert(line@ =~= without_cr(rest.take(n as int)));
            out.push(line);
            assert(out.deep_view() =~= before.push(line@));
            assert(rest.skip(n + 1) =~= s@.skip(from + n + 1));
            from = from + n + 1;
            assert(out.deep_view() + lines_of(s@.skip(from as int)) =~= before + lines_of(rest));
        }
    }
    assert(s@.skip(from as int) =~= Seq::<char>::empty());
    assert(out.deep_view() =~= lines_of(s@));
    out
}

// ── Words ───────────────────────────────────────────────────────────────────

/// The runs of characters between white space.
pub open spec fn words_of(s: Seq<char>) -> Seq<Seq<char>>
    decreases s.len(),
    via words_decrease
{
    let t = text::drop_lead(s, text::white());
    if t.len() == 0 {
        Seq::empty()
    } else {
        let n = text::lead(t, text::black()) as int;
        seq![t.take(n)] + words_of(t.skip(n))
    }
}

#[via_fn]
proof fn words_decrease(s: Seq<char>) {
    let t = text::drop_lead(s, text::white());
    text::lead_is_longest(s, text::white());
    text::lead_is_longest(t, text::black());
    if t.len() > 0 {
        assert(t[0] == s[text::lead(s, text::white()) as int]);
        assert(text::black()(t[0]));
    }
}

/// The runs of characters between white space.
pub fn split_whitespace(s: &str) -> (r: Vec<String>)
    ensures
        r.deep_view() == words_of(s@),
{
    let cs = chars_of(s);
    let len: usize = cs.len();
    let mut out: Vec<String> = Vec::new();
    let mut from: usize = 0;
    assert(s@.skip(0) =~= s@);
    assert(out.deep_view() =~= Seq::<Seq<char>>::empty());
    loop
        invariant
            from <= len,
            len == s@.len(),
            cs@ == s@,
            out.deep_view() + words_of(s@.skip(from as int)) == words_of(s@),
        decreases len - from,
    {
        let ghost rest = s@.skip(from as int);
        let ghost before = out.deep_view();
        let tail = vstd::slice::slice_subrange(cs.as_slice(), from, len);
        assert(tail@ =~= rest);
        let f = |c: char| -> (b: bool)
            ensures
                b == text::is_white(c),
            { is_whitespace(c) };
        let skip: usize = leading(tail, f, Ghost(text::white()));
        let at: usize = from + skip;
        let ghost t = text::drop_lead(rest, text::white());
        assert(t =~= s@.skip(at as int));
        if at == len {
            assert(words_of(rest) =~= Seq::<Seq<char>>::empty());
            assert(out.deep_view() =~= words_of(s@));
            return out;
        }
        let word_tail = vstd::slice::slice_subrange(cs.as_slice(), at, len);
        assert(word_tail@ =~= t);
        let g = |c: char| -> (b: bool)
            ensures
                b == !text::is_white(c),
            { !is_whitespace(c) };
        let n: usize = leading(word_tail, g, Ghost(text::black()));
        proof {
            text::lead_is_longest(rest, text::white());
            assert(t[0] == rest[skip as int]);
            text::lead_is_longest(t, text::black());
            assert(text::black()(t[0]));
        }
        let word = slice_of(cs.as_slice(), at, at + n);
        assert(word@ =~= t.take(n as int));
        out.push(word);
        assert(out.deep_view() =~= before.push(t.take(n as int)));
        from = at + n;
        assert(t.skip(n as int) =~= s@.skip(from as int));
        assert(out.deep_view() + words_of(s@.skip(from as int)) =~= before + words_of(rest));
    }
}

// ── Parts between separators ────────────────────────────────────────────────

/// The parts of a text between the characters of a class of separators; there
/// is always one more part than separators.
pub open spec fn parts_of(s: Seq<char>, sep: spec_fn(char) -> bool) -> Seq<Seq<char>>
    decreases s.len(),
{
    let n = text::lead(s, text::outside(sep)) as int;
    if n >= s.len() {
        seq![s]
    } else {
        seq![s.take(n)] + parts_of(s.skip(n + 1), sep)
    }
}

/// A text without separators is one part.
pub proof fn unseparated_is_one_part(s: Seq<char>, sep: spec_fn(char) -> bool)
    requires
        forall|k: int| 0 <= k < s.len() ==> !sep(#[trigger] s[k]),
    ensures
        parts_of(s, sep) == seq![s],
{
    assert forall|k: int| 0 <= k < s.len() implies text::outside(sep)(#[trigger] s[k]) by {}
    text::lead_is(s, text::outside(sep), s.len());
}

/// What stands before the first separator is the first part; the other parts
/// are those of what follows it.
pub proof fn first_separator_ends_first_part(
    first: Seq<char>,
    c: char,
    rest: Seq<char>,
    sep: spec_fn(char) -> bool,
)
    requires
        forall|k: int| 0 <= k < first.len() ==> !sep(#[trigger] first[k]),
        sep(c),
    ensures
        parts_of(first.push(c) + rest, sep) == seq![first] + parts_of(rest, sep),
{
    let s = first.push(c) + rest;
    let n = first.len();
    assert forall|k: int| 0 <= k < n implies text::outside(sep)(#[trigger] s[k]) by {
        assert(s[k] == first[k]);
    }
    text::lead_is(s, text::outside(sep), n);
    assert(s.take(n as int) =~= first);
    assert(s.skip(n as int + 1) =~= rest);
}

/// A separator parts the parts before it from the parts after it.
pub proof fn parts_across_a_separator(
    before: Seq<char>,
    c: char,
    after: Seq<char>,
    sep: spec_fn(char) -> bool,
)
    requires
        sep(c),
    ensures
        parts_of(before.push(c) + after, sep) == parts_of(before, sep) + parts_of(after, sep),
    decreases before.len(),
{
    let n = text::lead(before, text::outside(sep)) as int;
    text::lead_is_longest(before, text::outside(sep));
    if n >= before.len() {
        assert forall|k: int| 0 <= k < before.len() implies !sep(#[trigger] before[k]) by {
            assert(text::outside(sep)(before[k]));
        }
        unseparated_is_one_part(before, sep);
        first_separator_ends_first_part(before, c, after, sep);
    } else {
        let first = before.take(n);
        let rest = before.skip(n + 1);
        assert forall|k: int| 0 <= k < first.len() implies !sep(#[trigger] first[k]) by {
            assert(text::outside(sep)(before[k]));
        }
        assert(!text::outside(sep)(before[n]));
        assert(before =~= first.push(before[n]) + rest);
        assert(before.push(c) + after =~= first.push(before[n]) + (rest.push(c) + after));
        first_separator_ends_first_part(first, before[n], rest, sep);
        first_separator_ends_first_part(first, before[n], rest.push(c) + after, sep);
        parts_across_a_separator(rest, c, after, sep);
        assert(parts_of(before, sep) + parts_of(after, sep) =~= seq![first] + (parts_of(rest, sep)
            + parts_of(after, sep)));
    }
}

/// The parts of a text between the separators that `f` decides.
pub(crate) fn split_by(
    s: &str,
    f: impl Fn(char) -> bool,
    sep: Ghost<spec_fn(char) -> bool>,
) -> (r: Vec<String>)
    requires
        forall|c: char| #[trigger] f.requires((c,)),
        forall|c: char, b: bool| #[trigger] f.ensures((c,), b) ==> b == sep@(c),
    ensures
        r.deep_view() == parts_of(s@, sep@),
        r@.len() > 0,
{
    let cs = chars_of(s);
    let len: usize = cs.len();
    let mut out: Vec<String> = Vec::new();
    let mut from: usize = 0;
    assert(s@.skip(0) =~= s@);
    assert(out.deep_view() =~= Seq::<Seq<char>>::empty());
    loop
        invariant
            from <= len,
            len == s@.len(),
            cs@ == s@,
            forall|c: char| #[trigger] f.requires((c,)),
            forall|c: char, b: bool| #[trigger] f.ensures((c,), b) ==> b == sep@(c),
            out.deep_view() + parts_of(s@.skip(from as int), sep@) == parts_of(s@, sep@),
        decreases len - from,
    {
        let ghost rest = s@.skip(from as int);
        let ghost before = out.deep_view();
        let mut n: usize = 0;
        while from + n < len && !f(cs[from + n])
            invariant
                from + n <= len,
                len == cs@.len(),
                cs@ == s@,
                rest == s@.skip(from as int),
                forall|c: char| #[trigger] f.requires((c,)),
                forall|c: char, b: bool| #[trigger] f.ensures((c,), b) ==> b == sep@(c),
                forall|k: int| 0 <= k < n ==> text::outside(sep@)(#[trigger] rest[k]),
            ensures
                from + n <= len,
                forall|k: int| 0 <= k < n ==> text::outside(sep@)(#[trigger] rest[k]),
                from + n < len ==> !text::outside(sep@)(rest[n as int]),
            decreases len - from - n,
        {
            assert(rest[n as int] == cs@[from + n]);
            n += 1;
        }
        proof {
            text::lead_is(rest, text::outside(sep@), n as nat);
        }
        let part = slice_of(cs.as_slice(), from, from + n);
        assert(part@ =~= rest.take(n as int));
        out.push(part);
        assert(out.deep_view() =~= before.push(rest.take(n as int)));
        if from + n == len {
            assert(rest.take(n as int) =~= rest);
            assert(out.deep_view() =~= before + seq![rest]);
            return out;
        }
        assert(rest.skip(n + 1) =~= s@.skip(from + n + 1));
        from = from + n + 1;
        assert(out.deep_view() + parts_of(s@.skip(from as int), sep@) =~= before + parts_of(
            rest,
            sep@,
        ));
    }
}

// ── Joining ─────────────────────────────────────────────────────────────────

/// The parts with `sep` between each two.
pub open spec fn joined(parts: Seq<Seq<char>>, sep: Seq<char>) -> Seq<char>
    decreases parts.len(),
{
    if parts.len() == 0 {
        Seq::empty()
    } else if parts.len() == 1 {
        parts[0]
    } else {
        joined(parts.drop_last(), sep) + sep + parts.last()
    }
}

/// The parts with `sep` between each two.
pub fn join(parts: &Vec<String>, sep: &str) -> (r: String)
    ensures
        r@ == joined(parts.deep_view(), sep@),
{
    let mut r = String::new();
    let mut i: usize = 0;
    let ghost all = parts.deep_view();
    while i < parts.len()
        invariant
            i <= parts@.len(),
            all == parts.deep_view(),
            all.len() == parts@.len(),
            r@ == joined(all.take(i as int), sep@),
        decreases parts@.len() - i,
    {
        if i > 0 {
            r.append(sep);
        }
        r.append(parts[i].as_str());
        assert(all.take(i + 1).drop_last() =~= all.take(i as int));
        assert(all.take(i + 1).last() == parts@[i as int]@);
        i += 1;
    }
    assert(all.take(i as int) =~= all);
    r
}

// ── Cutting at the first occurrence ─────────────────────────────────────────

/// What stands before the first occurrence of `p`, or the whole text.
pub open spec fn before_first(s: Seq<char>, p: Seq<char>) -> Seq<char> {
    if text::occurs(s, p) {
        s.take(choose|i: int| text::first_at(s, p, i))
    } else {
        s
    }
}

/// What stands before the first occurrence of `p`, or the whole text.
pub fn before(s: &str, p: &str) -> (r: String)
    ensures
        r@ == before_first(s@, p@),
{
    let cs = chars_of(s);
    let ps = chars_of(p);
    match find_chars(cs.as_slice(), ps.as_slice()) {
        Some(i) => {
            proof {
                assert(text::first_at(s@, p@, i as int));
                let j = choose|j: int| text::first_at(s@, p@, j);
                assert(text::first_at(s@, p@, j));
                if j < i {
                    assert(!text::occurs_at(s@, p@, j));
                }
                if i < j {
                    assert(!text::occurs_at(s@, p@, i as int));
                }
            }
            let r = slice_of(cs.as_slice(), 0, i);
            assert(r@ =~= s@.take(i as int));
            r
        },
        None => slice_of(cs.as_slice(), 0, cs.len()),
    }
}

// ── Replacing ───────────────────────────────────────────────────────────────

/// `s` with every occurrence of `p`, taken from the left without overlap,
/// replaced by `r`.
pub open spec fn replaced(s: Seq<char>, p: Seq<char>, r: Seq<char>) -> Seq<char>
    decreases s.len(),
{
    if s.len() == 0 || p.len() == 0 {
        s
    } else if text::begins(s, p) {
        r + replaced(s.skip(p.len() as int), p, r)
    } else {
        seq![s[0]] + replaced(s.skip(1), p, r)
    }
}

/// `s` with every occurrence of `p` replaced by `r`.
pub fn replace(s: &str, p: &str, r: &str) -> (out: String)
    requires
        p@.len() > 0,
    ensures
        out@ == replaced(s@, p@, r@),
{
    let cs = chars_of(s);
    let ps = chars_of(p);
    let len: usize = cs.len();
    let mut out = String::new();
    let mut i: usize = 0;
    assert(s@.skip(0) =~= s@);
    while i < len
        invariant
            i <= len,
            len == s@.len(),
            cs@ == s@,
            ps@ == p@,
            p@.len() > 0,
            out@ + replaced(s@.skip(i as int), p@, r@) == replaced(s@, p@, r@),
        decreases len - i,
    {
        let ghost rest = s@.skip(i as int);
        let ghost done = out@;
        if stands_at(cs.as_slice(), ps.as_slice(), i) {
            assert(rest.subrange(0, p@.len() as int) =~= s@.subrange(i as int, i + p@.len()));
            out.append(r);
            assert(rest.skip(p@.len() as int) =~= s@.skip(i + p@.len()));
            i = i + ps.len();
            assert(out@ + replaced(s@.skip(i as int), p@, r@) =~= done + replaced(rest, p@, r@));
        } else {
            proof {
                if text::begins(rest, p@) {
                    assert(rest.subrange(0, p@.len() as int) =~= s@.subrange(
                        i as int,
                        i + p@.len(),
                    ));
                }
            }
            out.push(cs[i]);
            assert(rest.skip(1) =~= s@.skip(i + 1));
            i += 1;
            assert(out@ + replaced(s@.skip(i as int), p@, r@) =~= done + replaced(rest, p@, r@));
        }
    }
    assert(s@.skip(i as int) =~= Seq::<char>::empty());
    assert(out@ =~= replaced(s@, p@, r@));
    out
}

} // verus!
