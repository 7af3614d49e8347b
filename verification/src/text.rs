//! Text helpers over characters: searching, trimming, splitting, replacing and
//! decimal numbers. Every function is stated over the string's view, a
//! `Seq<char>`.

pub mod decimal;
pub mod number;
pub mod order;
pub mod split;

use vstd::prelude::*;
use vstd::slice::slice_subrange;

verus! {

broadcast use vstd::string::group_string_axioms;

/// `String::push` appends one character.
pub assume_specification[ String::push ](s: &mut String, c: char)
    ensures
        final(s)@ == old(s)@.push(c),
;

// ── Searching ───────────────────────────────────────────────────────────────

/// `p` stands in `s` at position `i`.
pub open spec fn occurs_at(s: Seq<char>, p: Seq<char>, i: int) -> bool {
    &&& 0 <= i
    &&& i + p.len() <= s.len()
    &&& s.subrange(i, i + p.len()) == p
}

/// `p` stands somewhere in `s`.
pub open spec fn occurs(s: Seq<char>, p: Seq<char>) -> bool {
    exists|i: int| occurs_at(s, p, i)
}

/// `i` is the first position at which `p` stands in `s`.
pub open spec fn first_at(s: Seq<char>, p: Seq<char>, i: int) -> bool {
    &&& occurs_at(s, p, i)
    &&& forall|j: int| 0 <= j < i ==> !occurs_at(s, p, j)
}

/// `s` begins with `p`.
pub open spec fn begins(s: Seq<char>, p: Seq<char>) -> bool {
    occurs_at(s, p, 0)
}

/// The characters of a string.
pub fn chars_of(s: &str) -> (v: Vec<char>)
    ensures
        v@ == s@,
{
    let mut v: Vec<char> = Vec::new();
    for c in it: s.chars()
        invariant
            it.seq() == s@,
            v@ == s@.take(it.index() as int),
    {
        v.push(c);
    }
    v
}

/// The string made of the given characters.
pub fn string_of(cs: &[char]) -> (r: String)
    ensures
        r@ == cs@,
{
    let mut r = String::new();
    let mut i: usize = 0;
    while i < cs.len()
        invariant
            i <= cs@.len(),
            r@ == cs@.take(i as int),
        decreases cs@.len() - i,
    {
        r.push(cs[i]);
        i += 1;
    }
    r
}

/// The characters `from..to` as a string.
pub fn slice_of(cs: &[char], from: usize, to: usize) -> (r: String)
    requires
        from <= to <= cs@.len(),
    ensures
        r@ == cs@.subrange(from as int, to as int),
{
    string_of(slice_subrange(cs, from, to))
}

/// Whether two character slices are the same.
pub fn same_chars(a: &[char], b: &[char]) -> (r: bool)
    ensures
        r == (a@ == b@),
{
    if a.len() != b.len() {
        return false;
    }
    let mut i: usize = 0;
    while i < a.len()
        invariant
            i <= a@.len(),
            a@.len() == b@.len(),
            forall|k: int| 0 <= k < i ==> a@[k] == b@[k],
        decreases a@.len() - i,
    {
        if a[i] != b[i] {
            return false;
        }
        i += 1;
    }
    assert(a@ =~= b@);
    true
}

/// Whether two strings are the same.
pub fn same(a: &str, b: &str) -> (r: bool)
    ensures
        r == (a@ == b@),
{
    same_chars(chars_of(a).as_slice(), chars_of(b).as_slice())
}

/// Whether `p` stands in `s` at position `at`.
pub fn stands_at(s: &[char], p: &[char], at: usize) -> (b: bool)
    requires
        at <= s@.len(),
    ensures
        b == occurs_at(s@, p@, at as int),
{
    if p.len() > s.len() - at {
        return false;
    }
    let ghost part = s@.subrange(at as int, at + p@.len());
    let n: usize = s.len();
    let mut j: usize = 0;
    while j < p.len()
        invariant
            j <= p@.len(),
            n == s@.len(),
            at + p@.len() <= n,
            part == s@.subrange(at as int, at + p@.len()),
            forall|k: int| 0 <= k < j ==> part[k] == p@[k],
        decreases p@.len() - j,
    {
        assert(part[j as int] == s@[at + j]);
        if s[at + j] != p[j] {
            return false;
        }
        j += 1;
    }
    assert(part =~= p@);
    true
}

/// The first position of `p` in `s`.
pub fn find_chars(s: &[char], p: &[char]) -> (r: Option<usize>)
    ensures
        match r {
            Some(i) => first_at(s@, p@, i as int),
            None => !occurs(s@, p@),
        },
{
    if p.len() > s.len() {
        return None;
    }
    let last: usize = s.len() - p.len();
    let mut i: usize = 0;
    while i <= last
        invariant
            i <= last + 1,
            last + p@.len() == s@.len(),
            forall|j: int| 0 <= j < i ==> !occurs_at(s@, p@, j),
        decreases last + 1 - i,
    {
        if stands_at(s, p, i) {
            return Some(i);
        }
        if i == last {
            return None;
        }
        i += 1;
    }
    None
}

/// Whether `p` stands somewhere in `s`.
pub fn contains(s: &str, p: &str) -> (b: bool)
    ensures
        b == occurs(s@, p@),
{
    find_chars(chars_of(s).as_slice(), chars_of(p).as_slice()).is_some()
}

/// Whether `s` begins with `p`.
pub fn starts_with(s: &str, p: &str) -> (b: bool)
    ensures
        b == begins(s@, p@),
{
    stands_at(chars_of(s).as_slice(), chars_of(p).as_slice(), 0)
}

/// What follows the prefix `p` of `s`, when `s` begins with it.
pub open spec fn after_prefix(s: Seq<char>, p: Seq<char>) -> Option<Seq<char>> {
    if begins(s, p) {
        Some(s.skip(p.len() as int))
    } else {
        None
    }
}

/// What follows the prefix `p` of `s`, when `s` begins with it.
pub fn strip_prefix(s: &str, p: &str) -> (r: Option<String>)
    ensures
        r.deep_view() == after_prefix(s@, p@),
{
    let cs = chars_of(s);
    let ps = chars_of(p);
    if stands_at(cs.as_slice(), ps.as_slice(), 0) {
        Some(slice_of(cs.as_slice(), ps.len(), cs.len()))
    } else {
        None
    }
}

/// Prefixing and stripping undo each other.
pub proof fn prefix_round_trip(p: Seq<char>, s: Seq<char>)
    ensures
        begins(p + s, p),
        after_prefix(p + s, p) == Some(s),
{
    assert((p + s).subrange(0, p.len() as int) =~= p);
    assert((p + s).skip(p.len() as int) =~= s);
}

// ── Runs of characters ──────────────────────────────────────────────────────

/// Unicode `White_Space`, the class that `char::is_whitespace` tests.
pub open spec fn is_white(c: char) -> bool {
    ||| 0x09 <= c as u32 <= 0x0d
    ||| c as u32 == 0x20
    ||| c as u32 == 0x85
    ||| c as u32 == 0xa0
    ||| c as u32 == 0x1680
    ||| 0x2000 <= c as u32 <= 0x200a
    ||| c as u32 == 0x2028
    ||| c as u32 == 0x2029
    ||| c as u32 == 0x202f
    ||| c as u32 == 0x205f
    ||| c as u32 == 0x3000
}

/// Whether a character is Unicode white space.
pub fn is_whitespace(c: char) -> (b: bool)
    ensures
        b == is_white(c),
{
    let u: u32 = c as u32;
    (0x09 <= u && u <= 0x0d) || u == 0x20 || u == 0x85 || u == 0xa0 || u == 0x1680 || (0x2000 <= u
        && u <= 0x200a) || u == 0x2028 || u == 0x2029 || u == 0x202f || u == 0x205f || u == 0x3000
}

/// The class of white space.
pub open spec fn white() -> spec_fn(char) -> bool {
    |c: char| is_white(c)
}

/// The class of everything but white space.
pub open spec fn black() -> spec_fn(char) -> bool {
    |c: char| !is_white(c)
}

/// The class that holds `k` alone.
pub open spec fn only(k: char) -> spec_fn(char) -> bool {
    |c: char| c == k
}

/// The class that holds everything but `k`.
pub open spec fn but(k: char) -> spec_fn(char) -> bool {
    |c: char| c != k
}

/// The class that a class leaves out.
pub open spec fn outside(class: spec_fn(char) -> bool) -> spec_fn(char) -> bool {
    |c: char| !class(c)
}

/// None of the first `k` characters of `s` is `c`.
pub open spec fn lacks(s: Seq<char>, c: char, k: nat) -> bool
    decreases k,
{
    k == 0 || (s[k - 1] != c && lacks(s, c, (k - 1) as nat))
}

/// A text that lacks a character nowhere holds it.
pub proof fn lacks_all(s: Seq<char>, c: char, k: nat)
    requires
        lacks(s, c, k),
    ensures
        forall|i: int| 0 <= i < k ==> #[trigger] s[i] != c,
    decreases k,
{
    if k > 0 {
        lacks_all(s, c, (k - 1) as nat);
    }
}

/// The first `k` characters of the two texts are the same.
pub open spec fn agrees(s: Seq<char>, p: Seq<char>, k: nat) -> bool
    decreases k,
{
    k == 0 || (s[k - 1] == p[k - 1] && agrees(s, p, (k - 1) as nat))
}

proof fn agrees_all(s: Seq<char>, p: Seq<char>, k: nat)
    requires
        agrees(s, p, k),
    ensures
        forall|i: int| 0 <= i < k ==> #[trigger] s[i] == p[i],
    decreases k,
{
    if k > 0 {
        agrees_all(s, p, (k - 1) as nat);
    }
}

/// A text begins with another that it agrees with throughout.
pub proof fn begins_where_it_agrees(s: Seq<char>, p: Seq<char>)
    requires
        p.len() <= s.len(),
        agrees(s, p, p.len()),
    ensures
        begins(s, p),
{
    agrees_all(s, p, p.len());
    assert(s.subrange(0, p.len() as int) =~= p);
}

/// How many characters at the start of `s` are of the class.
pub open spec fn lead(s: Seq<char>, class: spec_fn(char) -> bool) -> nat
    decreases s.len(),
{
    if s.len() > 0 && class(s[0]) {
        1 + lead(s.skip(1), class)
    } else {
        0
    }
}

/// How many characters at the end of `s` are of the class.
pub open spec fn trail(s: Seq<char>, class: spec_fn(char) -> bool) -> nat
    decreases s.len(),
{
    if s.len() > 0 && class(s.last()) {
        1 + trail(s.drop_last(), class)
    } else {
        0
    }
}

/// The leading run is the longest prefix of the class.
pub proof fn lead_is_longest(s: Seq<char>, class: spec_fn(char) -> bool)
    ensures
        lead(s, class) <= s.len(),
        forall|k: int| 0 <= k < lead(s, class) ==> class(#[trigger] s[k]),
        lead(s, class) < s.len() ==> !class(s[lead(s, class) as int]),
    decreases s.len(),
{
    if s.len() > 0 && class(s[0]) {
        let t = s.skip(1);
        lead_is_longest(t, class);
        assert forall|k: int| 0 <= k < lead(s, class) implies class(#[trigger] s[k]) by {
            if k > 0 {
                assert(s[k] == t[k - 1]);
            }
        }
    }
}

/// A prefix of the class that stops at the end or before another character is
/// the leading run.
pub proof fn lead_is(s: Seq<char>, class: spec_fn(char) -> bool, n: nat)
    requires
        n <= s.len(),
        forall|k: int| 0 <= k < n ==> class(#[trigger] s[k]),
        n < s.len() ==> !class(s[n as int]),
    ensures
        lead(s, class) == n,
{
    lead_is_longest(s, class);
    let m = lead(s, class);
    if m < n {
        assert(class(s[m as int]));
    }
    if n < m {
        assert(class(s[n as int]));
    }
}

/// The trailing run is the longest suffix of the class.
pub proof fn trail_is_longest(s: Seq<char>, class: spec_fn(char) -> bool)
    ensures
        trail(s, class) <= s.len(),
        forall|k: int| s.len() - trail(s, class) <= k < s.len() ==> class(#[trigger] s[k]),
        trail(s, class) < s.len() ==> !class(s[s.len() - trail(s, class) - 1]),
    decreases s.len(),
{
    if s.len() > 0 && class(s.last()) {
        let t = s.drop_last();
        trail_is_longest(t, class);
        assert forall|k: int| s.len() - trail(s, class) <= k < s.len() implies class(
            #[trigger] s[k],
        ) by {
            if k < t.len() {
                assert(s[k] == t[k]);
            }
        }
    }
}

/// A suffix of the class that starts at the beginning or after another
/// character is the trailing run.
pub proof fn trail_is(s: Seq<char>, class: spec_fn(char) -> bool, n: nat)
    requires
        n <= s.len(),
        forall|k: int| s.len() - n <= k < s.len() ==> class(#[trigger] s[k]),
        n < s.len() ==> !class(s[s.len() - n - 1]),
    ensures
        trail(s, class) == n,
{
    trail_is_longest(s, class);
    let m = trail(s, class);
    if m < n {
        assert(class(s[s.len() - m - 1]));
    }
    if n < m {
        assert(class(s[s.len() - n - 1]));
    }
}

/// The length of the leading run of a class that `f` decides.
pub(crate) fn leading(
    cs: &[char],
    f: impl Fn(char) -> bool,
    class: Ghost<spec_fn(char) -> bool>,
) -> (n: usize)
    requires
        forall|c: char| #[trigger] f.requires((c,)),
        forall|c: char, b: bool| #[trigger] f.ensures((c,), b) ==> b == class@(c),
    ensures
        n <= cs@.len(),
        n == lead(cs@, class@),
{
    let mut n: usize = 0;
    while n < cs.len()
        invariant
            n <= cs@.len(),
            forall|c: char| #[trigger] f.requires((c,)),
            forall|c: char, b: bool| #[trigger] f.ensures((c,), b) ==> b == class@(c),
            forall|k: int| 0 <= k < n ==> class@(#[trigger] cs@[k]),
        decreases cs@.len() - n,
    {
        if !f(cs[n]) {
            proof {
                lead_is(cs@, class@, n as nat);
            }
            return n;
        }
        n += 1;
    }
    proof {
        lead_is(cs@, class@, n as nat);
    }
    n
}

/// The length of the trailing run of a class that `f` decides.
pub(crate) fn trailing(
    cs: &[char],
    f: impl Fn(char) -> bool,
    class: Ghost<spec_fn(char) -> bool>,
) -> (n: usize)
    requires
        forall|c: char| #[trigger] f.requires((c,)),
        forall|c: char, b: bool| #[trigger] f.ensures((c,), b) ==> b == class@(c),
    ensures
        n <= cs@.len(),
        n == trail(cs@, class@),
{
    let mut n: usize = 0;
    let len: usize = cs.len();
    assert(cs@.take(len as int) =~= cs@);
    while n < len
        invariant
            n <= len,
            len == cs@.len(),
            forall|c: char| #[trigger] f.requires((c,)),
            forall|c: char, b: bool| #[trigger] f.ensures((c,), b) ==> b == class@(c),
            trail(cs@, class@) == n + trail(cs@.take(len - n), class@),
        decreases len - n,
    {
        let ghost rest = cs@.take(len - n);
        assert(rest.last() == cs@[len - n - 1]);
        if !f(cs[len - n - 1]) {
            return n;
        }
        assert(rest.drop_last() =~= cs@.take(len - n - 1));
        n += 1;
    }
    n
}

// ── Trimming ────────────────────────────────────────────────────────────────

/// `s` without its leading run of the class.
pub open spec fn drop_lead(s: Seq<char>, class: spec_fn(char) -> bool) -> Seq<char> {
    s.skip(lead(s, class) as int)
}

/// `s` without its trailing run of the class.
pub open spec fn drop_trail(s: Seq<char>, class: spec_fn(char) -> bool) -> Seq<char> {
    s.take(s.len() - trail(s, class))
}

/// `s` without white space at either end.
pub open spec fn trimmed(s: Seq<char>) -> Seq<char> {
    drop_trail(drop_lead(s, white()), white())
}

/// `s` without white space at its end.
pub fn trim_end(s: &str) -> (r: String)
    ensures
        r@ == drop_trail(s@, white()),
{
    let cs = chars_of(s);
    let f = |c: char| -> (b: bool)
        ensures
            b == is_white(c),
        { is_whitespace(c) };
    let n: usize = trailing(cs.as_slice(), f, Ghost(white()));
    slice_of(cs.as_slice(), 0, cs.len() - n)
}

/// `s` without white space at either end.
pub fn trim(s: &str) -> (r: String)
    ensures
        r@ == trimmed(s@),
{
    let cs = chars_of(s);
    let f = |c: char| -> (b: bool)
        ensures
            b == is_white(c),
        { is_whitespace(c) };
    let n: usize = leading(cs.as_slice(), f, Ghost(white()));
    let rest = slice_of(cs.as_slice(), n, cs.len());
    assert(rest@ =~= s@.skip(n as int));
    trim_end(rest.as_str())
}

/// `s` without the run of `k` at its start.
pub fn trim_start_of(s: &str, k: char) -> (r: String)
    ensures
        r@ == drop_lead(s@, only(k)),
{
    let cs = chars_of(s);
    let f = |c: char| -> (b: bool)
        ensures
            b == (c == k),
        { c == k };
    let n: usize = leading(cs.as_slice(), f, Ghost(only(k)));
    let r = slice_of(cs.as_slice(), n, cs.len());
    assert(r@ =~= s@.skip(n as int));
    r
}

/// `s` without the run of `k` at its end.
pub fn trim_end_of(s: &str, k: char) -> (r: String)
    ensures
        r@ == drop_trail(s@, only(k)),
{
    let cs = chars_of(s);
    let f = |c: char| -> (b: bool)
        ensures
            b == (c == k),
        { c == k };
    let n: usize = trailing(cs.as_slice(), f, Ghost(only(k)));
    slice_of(cs.as_slice(), 0, cs.len() - n)
}

// ── Padding ─────────────────────────────────────────────────────────────────

/// `n` spaces.
pub open spec fn spaces(n: nat) -> Seq<char> {
    Seq::new(n, |i: int| ' ')
}

/// The text, filled up with spaces to a width.
pub open spec fn padded(s: Seq<char>, width: nat) -> Seq<char> {
    if s.len() < width {
        s + spaces((width - s.len()) as nat)
    } else {
        s
    }
}

/// The text, filled up with spaces to a width.
pub fn pad(s: &str, width: usize) -> (r: String)
    ensures
        r@ == padded(s@, width as nat),
{
    let mut r = s.to_owned();
    let mut len: usize = s.unicode_len();
    while len < width
        invariant
            len == r@.len(),
            s@.len() <= len,
            len <= width || len == s@.len(),
            r@ == s@ + spaces((len - s@.len()) as nat),
        decreases width - len,
    {
        let ghost before = r@;
        r.push(' ');
        assert(r@ =~= s@ + spaces((len + 1 - s@.len()) as nat));
        len += 1;
    }
    assert(r@ =~= padded(s@, width as nat));
    r
}

/// Whether `s` ends with `p`.
pub open spec fn ends(s: Seq<char>, p: Seq<char>) -> bool {
    occurs_at(s, p, s.len() - p.len())
}

/// Whether `s` ends with `p`.
pub fn ends_with(s: &str, p: &str) -> (b: bool)
    ensures
        b == ends(s@, p@),
{
    let cs = chars_of(s);
    let ps = chars_of(p);
    if ps.len() > cs.len() {
        return false;
    }
    stands_at(cs.as_slice(), ps.as_slice(), cs.len() - ps.len())
}

// ── Case ────────────────────────────────────────────────────────────────────

/// An ASCII capital becomes the small letter; anything else stays.
pub open spec fn ascii_lower(c: char) -> char {
    if 'A' <= c <= 'Z' {
        (c as u8 + 32) as char
    } else {
        c
    }
}

/// The text with its ASCII capitals made small.
pub open spec fn lower(s: Seq<char>) -> Seq<char> {
    s.map_values(|c: char| ascii_lower(c))
}

/// The text with its ASCII capitals made small.
pub fn to_ascii_lowercase(s: &str) -> (r: String)
    ensures
        r@ == lower(s@),
{
    let mut r = String::new();
    for c in it: s.chars()
        invariant
            it.seq() == s@,
            r@ == lower(s@).take(it.index() as int),
    {
        if 'A' <= c && c <= 'Z' {
            r.push((c as u8 + 32) as char);
        } else {
            r.push(c);
        }
    }
    r
}

} // verus!
