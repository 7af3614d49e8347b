//! Numbers written with a point and an exponent, as text: reading them, and
//! comparing them digit by digit, however large or small they are.

use vstd::prelude::*;

use crate::text::{self, chars_of, number};

verus! {

broadcast use vstd::string::group_string_axioms;

/// A number as it is written: its digits, with the point after the first `point`
/// of them. The point may lie outside the digits, on either side.
pub struct DecimalView {
    pub negative: bool,
    pub digits: Seq<char>,
    pub point: int,
}

/// The exponent that stands behind the digits: none at all is 0; otherwise an
/// `e`, a sign if any, and at least one digit.
pub open spec fn exponent(tail: Seq<char>) -> Option<int> {
    if tail.len() == 0 {
        Some(0)
    } else if tail[0] != 'e' && tail[0] != 'E' {
        None
    } else if tail.len() > 1 && tail[1] == '-' {
        if number::all_digits(tail.skip(2)) {
            Some(-number::value(tail.skip(2)))
        } else {
            None
        }
    } else {
        let digits = if tail.len() > 1 && tail[1] == '+' {
            tail.skip(2)
        } else {
            tail.skip(1)
        };
        if number::all_digits(digits) {
            Some(number::value(digits) as int)
        } else {
            None
        }
    }
}

/// The number that a text without a sign writes: digits, with a point before,
/// among or after them if any, and an exponent if any.
pub open spec fn unsigned(s: Seq<char>, negative: bool) -> Option<DecimalView> {
    let n = text::lead(s, number::digits()) as int;
    let dotted = n < s.len() && s[n] == '.';
    let fraction = if dotted {
        s.skip(n + 1).take(text::lead(s.skip(n + 1), number::digits()) as int)
    } else {
        Seq::empty()
    };
    let tail = if dotted {
        s.skip(n + 1 + fraction.len())
    } else {
        s.skip(n)
    };
    if n + fraction.len() == 0 {
        None
    } else {
        match exponent(tail) {
            Some(e) => Some(
                DecimalView { negative, digits: s.take(n) + fraction, point: n + e },
            ),
            None => None,
        }
    }
}

/// The number that a text writes: a sign if any, then a number without one.
pub open spec fn written(s: Seq<char>) -> Option<DecimalView> {
    if s.len() > 0 && s[0] == '-' {
        unsigned(s.skip(1), true)
    } else if s.len() > 0 && s[0] == '+' {
        unsigned(s.skip(1), false)
    } else {
        unsigned(s, false)
    }
}

// ── Reading ─────────────────────────────────────────────────────────────────

/// How far the point is followed: an exponent that is further out is cut to this.
pub const FAR: i128 = 1208925819614629174706176;

/// Every character is a digit.
pub open spec fn only_digits(s: Seq<char>) -> bool {
    forall|k: int| 0 <= k < s.len() ==> number::is_digit(#[trigger] s[k])
}

/// A number that was read.
#[derive(Debug, Clone, PartialEq, Eq)]
pub struct Decimal {
    pub negative: bool,
    pub digits: Vec<char>,
    pub point: i128,
}

impl Decimal {
    /// The digits are digits, and the point is no further out than is followed.
    pub open spec fn wf(self) -> bool {
        only_digits(self.digits@) && -FAR <= self.point <= FAR + usize::MAX
    }

    /// What was read is the number, its point exact unless it is very far out.
    pub open spec fn stands_for(self, number: DecimalView) -> bool {
        &&& self.wf()
        &&& self.negative == number.negative
        &&& self.digits@ == number.digits
        &&& {
            ||| self.point == number.point
            ||| FAR <= self.point <= number.point
            ||| number.point <= self.point <= usize::MAX - FAR
        }
    }
}

/// The number that the digits `from..` write, cut to [`FAR`].
fn cut_value(cs: &[char], from: usize) -> (r: i128)
    requires
        from <= cs@.len(),
        number::all_digits(cs@.skip(from as int)),
    ensures
        r == (if number::value(cs@.skip(from as int)) < FAR {
            number::value(cs@.skip(from as int)) as int
        } else {
            FAR as int
        }),
{
    let ghost digits = cs@.skip(from as int);
    let mut v: i128 = 0;
    let mut i: usize = from;
    assert(digits.take(0) =~= Seq::empty());
    while i < cs.len()
        invariant
            from <= i <= cs@.len(),
            digits == cs@.skip(from as int),
            number::all_digits(digits),
            0 <= v < FAR,
            v == number::value(digits.take(i - from)),
        decreases cs@.len() - i,
    {
        let ghost next = digits.take(i + 1 - from);
        assert(next.drop_last() =~= digits.take(i - from));
        assert(next.last() == cs@[i as int]);
        assert(number::is_digit(digits[i - from]));
        v = v * 10 + (cs[i] as u32 - '0' as u32) as i128;
        proof {
            number::value_grows(digits, i + 1 - from);
        }
        if v >= FAR {
            return FAR;
        }
        i += 1;
    }
    assert(digits.take(i - from) =~= digits);
    v
}

fn all_digits_from(cs: &[char], from: usize) -> (r: bool)
    requires
        from <= cs@.len(),
    ensures
        r == number::all_digits(cs@.skip(from as int)),
{
    let ghost tail = cs@.skip(from as int);
    if from == cs.len() {
        return false;
    }
    let mut i: usize = from;
    while i < cs.len()
        invariant
            from <= i <= cs@.len(),
            tail == cs@.skip(from as int),
            forall|k: int| 0 <= k < i - from ==> number::is_digit(#[trigger] tail[k]),
        decreases cs@.len() - i,
    {
        assert(tail[i - from] == cs@[i as int]);
        if cs[i] < '0' || '9' < cs[i] {
            return false;
        }
        i += 1;
    }
    true
}

/// The exponent from `from` on, cut to [`FAR`] on either side.
fn read_exponent(cs: &[char], from: usize) -> (r: Option<i128>)
    requires
        from <= cs@.len(),
    ensures
        match (r, exponent(cs@.skip(from as int))) {
            (Some(e), Some(full)) => e == (if full >= FAR {
                FAR as int
            } else if full <= -FAR {
                -FAR as int
            } else {
                full
            }),
            (None, None) => true,
            _ => false,
        },
{
    let ghost tail = cs@.skip(from as int);
    let left: usize = cs.len() - from;
    if left == 0 {
        return Some(0);
    }
    assert(tail[0] == cs@[from as int]);
    if cs[from] != 'e' && cs[from] != 'E' {
        return None;
    }
    assert(left > 1 ==> tail[1] == cs@[from + 1]);
    if left > 1 && cs[from + 1] == '-' {
        assert(tail.skip(2) =~= cs@.skip(from + 2));
        if !all_digits_from(cs, from + 2) {
            return None;
        }
        return Some(-cut_value(cs, from + 2));
    }
    let start: usize = if left > 1 && cs[from + 1] == '+' {
        from + 2
    } else {
        from + 1
    };
    assert(tail.skip(start - from) =~= cs@.skip(start as int));
    if !all_digits_from(cs, start) {
        return None;
    }
    Some(cut_value(cs, start))
}

fn digits_from(cs: &[char], from: usize) -> (n: usize)
    requires
        from <= cs@.len(),
    ensures
        n == text::lead(cs@.skip(from as int), number::digits()),
        from + n <= cs@.len(),
        forall|k: int| from <= k < from + n ==> number::is_digit(#[trigger] cs@[k]),
{
    let ghost tail = cs@.skip(from as int);
    let mut i: usize = from;
    while i < cs.len() && '0' <= cs[i] && cs[i] <= '9'
        invariant
            from <= i <= cs@.len(),
            forall|k: int| from <= k < i ==> number::is_digit(#[trigger] cs@[k]),
        decreases cs@.len() - i,
    {
        i += 1;
    }
    proof {
        assert forall|k: int| 0 <= k < i - from implies number::digits()(#[trigger] tail[k]) by {
            assert(tail[k] == cs@[k + from]);
        }
        if i < cs@.len() {
            assert(tail[i - from] == cs@[i as int]);
        }
        text::lead_is(tail, number::digits(), (i - from) as nat);
    }
    i - from
}

fn push_all(out: &mut Vec<char>, cs: &[char], from: usize, to: usize)
    requires
        from <= to <= cs@.len(),
    ensures
        final(out)@ == old(out)@ + cs@.subrange(from as int, to as int),
{
    let mut i: usize = from;
    assert(out@ =~= old(out)@ + cs@.subrange(from as int, i as int));
    while i < to
        invariant
            from <= i <= to <= cs@.len(),
            out@ == old(out)@ + cs@.subrange(from as int, i as int),
        decreases to - i,
    {
        out.push(cs[i]);
        i += 1;
        assert(out@ =~= old(out)@ + cs@.subrange(from as int, i as int));
    }
}

/// The number without a sign from `from` on, by where its parts end.
proof fn unsigned_in_parts(
    cs: Seq<char>,
    from: int,
    n: int,
    tail: int,
    fraction: Seq<char>,
    negative: bool,
)
    requires
        0 <= from <= from + n <= tail <= cs.len(),
        n == text::lead(cs.skip(from), number::digits()),
        if from + n < cs.len() && cs[from + n] == '.' {
            &&& tail == from + n + 1 + text::lead(cs.skip(from + n + 1), number::digits())
            &&& fraction == cs.subrange(from + n + 1, tail)
        } else {
            tail == from + n && fraction.len() == 0
        },
    ensures
        unsigned(cs.skip(from), negative) == (if n + fraction.len() == 0 {
            None
        } else {
            match exponent(cs.skip(tail)) {
                Some(e) => Some(
                    DecimalView {
                        negative,
                        digits: cs.subrange(from, from + n) + fraction,
                        point: n + e,
                    },
                ),
                None => None,
            }
        }),
{
    let s = cs.skip(from);
    let dot = from + n;
    assert(s.take(n) =~= cs.subrange(from, dot));
    assert(dot < cs.len() ==> s[n] == cs[dot]);
    if dot < cs.len() && cs[dot] == '.' {
        assert(s.skip(n + 1) =~= cs.skip(dot + 1));
        assert(s.skip(n + 1).take(tail - dot - 1) =~= fraction);
        assert(s.skip(n + 1 + fraction.len()) =~= cs.skip(tail));
    } else {
        assert(fraction =~= Seq::empty());
        assert(s.skip(n) =~= cs.skip(tail));
    }
}

fn read_unsigned(cs: &[char], from: usize, negative: bool) -> (r: Option<Decimal>)
    requires
        from <= cs@.len(),
    ensures
        match (r, unsigned(cs@.skip(from as int), negative)) {
            (Some(d), Some(number)) => d.stands_for(number),
            (None, None) => true,
            _ => false,
        },
{
    let len: usize = cs.len();
    let n: usize = digits_from(cs, from);
    let dot: usize = from + n;
    let mut digits: Vec<char> = Vec::new();
    push_all(&mut digits, cs, from, dot);
    let ghost whole = cs@.subrange(from as int, dot as int);
    assert(digits@ =~= whole);
    let mut tail: usize = dot;
    let ghost mut fraction = Seq::<char>::empty();
    if dot < len && cs[dot] == '.' {
        let m: usize = digits_from(cs, dot + 1);
        tail = dot + 1 + m;
        push_all(&mut digits, cs, dot + 1, tail);
        proof {
            fraction = cs@.subrange(dot + 1, tail as int);
        }
    }
    proof {
        unsigned_in_parts(cs@, from as int, n as int, tail as int, fraction, negative);
        assert(digits@ =~= whole + fraction);
        assert forall|k: int| 0 <= k < digits@.len() implies number::is_digit(
            #[trigger] digits@[k],
        ) by {
            if k < n {
                assert(digits@[k] == cs@[from + k]);
            } else {
                assert(digits@[k] == fraction[k - n]);
                assert(fraction[k - n] == cs@[dot + 1 + k - n]);
            }
        }
    }
    if digits.len() == 0 {
        return None;
    }
    match read_exponent(cs, tail) {
        Some(e) => Some(Decimal { negative, digits, point: n as i128 + e }),
        None => None,
    }
}

/// Read the number that a text writes.
pub fn read(s: &str) -> (r: Option<Decimal>)
    ensures
        match (r, written(s@)) {
            (Some(d), Some(number)) => d.stands_for(number),
            (None, None) => true,
            _ => false,
        },
{
    let cs = chars_of(s);
    if cs.len() > 0 && cs[0] == '-' {
        read_unsigned(cs.as_slice(), 1, true)
    } else if cs.len() > 0 && cs[0] == '+' {
        read_unsigned(cs.as_slice(), 1, false)
    } else {
        assert(s@.skip(0) =~= s@);
        read_unsigned(cs.as_slice(), 0, false)
    }
}

// ── Comparing ───────────────────────────────────────────────────────────────

/// The digit in the place of ten to the `p`, where the point stands after the
/// first `point` digits; 0 where no digit is written.
pub open spec fn place(digits: Seq<char>, point: int, p: int) -> int {
    let i = point - 1 - p;
    if 0 <= i < digits.len() {
        digits[i] as u32 - '0' as u32
    } else {
        0
    }
}

/// The digits agree in every place above `p`.
pub open spec fn same_above(a: Seq<char>, pa: int, b: Seq<char>, pb: int, p: int) -> bool {
    forall|q: int| q > p ==> #[trigger] place(a, pa, q) == place(b, pb, q)
}

/// The first number is the lesser one in the place `p`, and above it they agree.
pub open spec fn less_at(a: Seq<char>, pa: int, b: Seq<char>, pb: int, p: int) -> bool {
    place(a, pa, p) < place(b, pb, p) && same_above(a, pa, b, pb, p)
}

/// The first number is less than the second, signs aside: it is in the highest
/// place in which they differ.
pub open spec fn less(a: Seq<char>, pa: int, b: Seq<char>, pb: int) -> bool {
    exists|p: int| #[trigger] less_at(a, pa, b, pb, p)
}

/// Of two runs of digits of one length, the lesser writes the lesser number.
pub proof fn digits_compare_as_numbers(a: Seq<char>, b: Seq<char>)
    requires
        a.len() == b.len(),
        only_digits(a),
        only_digits(b),
    ensures
        less(a, a.len() as int, b, b.len() as int) <==> number::value(a) < number::value(b),
    decreases a.len(),
{
    let n = a.len() as int;
    if n == 0 {
        assert forall|p: int| !less_at(a, n, b, n, p) by {}
    } else {
        let (x, y) = (a.drop_last(), b.drop_last());
        digits_compare_as_numbers(x, y);
        assert(number::is_digit(a[n - 1]) && number::is_digit(b[n - 1]));
        assert forall|p: int| p > 0 implies #[trigger] place(a, n, p) == place(x, n - 1, p - 1)
            && place(b, n, p) == place(y, n - 1, p - 1) by {}
        if less(a, n, b, n) {
            let p = choose|p: int| #[trigger] less_at(a, n, b, n, p);
            if p > 0 {
                assert forall|q: int| q > p - 1 implies #[trigger] place(x, n - 1, q) == place(
                    y,
                    n - 1,
                    q,
                ) by {
                    assert(place(a, n, q + 1) == place(b, n, q + 1));
                }
                assert(place(a, n, p) == place(x, n - 1, p - 1));
                assert(less_at(x, n - 1, y, n - 1, p - 1));
            } else {
                assert(p == 0);
                equal_places(a, b, x, y);
            }
        }
        if number::value(a) < number::value(b) {
            if number::value(x) < number::value(y) {
                let p = choose|p: int| #[trigger] less_at(x, n - 1, y, n - 1, p);
                assert(p >= 0);
                assert forall|q: int| q > p + 1 implies #[trigger] place(a, n, q) == place(
                    b,
                    n,
                    q,
                ) by {
                    assert(place(x, n - 1, q - 1) == place(y, n - 1, q - 1));
                }
                assert(place(a, n, p + 1) == place(x, n - 1, p));
                assert(less_at(a, n, b, n, p + 1));
            } else {
                assert(number::value(x) == number::value(y));
                same_value_same_digits(x, y);
                assert(less_at(a, n, b, n, 0)) by {
                    assert forall|q: int| q > 0 implies #[trigger] place(a, n, q) == place(
                        b,
                        n,
                        q,
                    ) by {
                        assert(place(a, n, q) == place(x, n - 1, q - 1));
                    }
                }
            }
        }
    }
}

/// Digits that agree in every place but the last are the same but for the last.
proof fn equal_places(a: Seq<char>, b: Seq<char>, x: Seq<char>, y: Seq<char>)
    requires
        a.len() == b.len(),
        a.len() > 0,
        x == a.drop_last(),
        y == b.drop_last(),
        same_above(a, a.len() as int, b, b.len() as int, 0),
        only_digits(a),
        only_digits(b),
    ensures
        x == y,
{
    let n = a.len() as int;
    assert forall|i: int| 0 <= i < n - 1 implies x[i] == y[i] by {
        let q = n - 1 - i;
        assert(place(a, n, q) == place(b, n, q));
        assert(number::is_digit(a[i]) && number::is_digit(b[i]));
        assert(a[i] as u32 == b[i] as u32);
    }
    assert(x =~= y);
}

proof fn same_value_same_digits(a: Seq<char>, b: Seq<char>)
    requires
        a.len() == b.len(),
        only_digits(a),
        only_digits(b),
        number::value(a) == number::value(b),
    ensures
        a == b,
    decreases a.len(),
{
    if a.len() > 0 {
        assert(number::is_digit(a[a.len() - 1]) && number::is_digit(b[b.len() - 1]));
        same_value_same_digits(a.drop_last(), b.drop_last());
        assert(a.last() as u32 == b.last() as u32);
        assert(a =~= a.drop_last().push(a.last()));
        assert(b =~= b.drop_last().push(b.last()));
    } else {
        assert(a =~= b);
    }
}

/// What decides one way does not decide the other way.
proof fn decided(a: Seq<char>, pa: int, b: Seq<char>, pb: int, p: int)
    requires
        less_at(a, pa, b, pb, p),
    ensures
        less(a, pa, b, pb),
        !less(b, pb, a, pa),
{
    if less(b, pb, a, pa) {
        let q = choose|q: int| #[trigger] less_at(b, pb, a, pa, q);
        assert(place(a, pa, q) == place(a, pa, q));
        if q > p {
            assert(place(a, pa, q) == place(b, pb, q));
        } else if q < p {
            assert(place(b, pb, p) == place(a, pa, p));
        }
    }
}

/// Places that no digit fills, or a zero, count nothing.
proof fn places_above_are_empty(a: Seq<char>, pa: int, first: int)
    requires
        0 <= first <= a.len(),
        forall|k: int| 0 <= k < first ==> #[trigger] a[k] == '0',
    ensures
        forall|q: int| q > pa - 1 - first ==> #[trigger] place(a, pa, q) == 0,
{
    assert forall|q: int| q > pa - 1 - first implies #[trigger] place(a, pa, q) == 0 by {
        let i = pa - 1 - q;
        if 0 <= i < a.len() {
            assert(a[i] == '0');
        }
    }
}

fn zeros(a: &[char]) -> (n: usize)
    ensures
        n <= a@.len(),
        forall|k: int| 0 <= k < n ==> #[trigger] a@[k] == '0',
        n < a@.len() ==> a@[n as int] != '0',
{
    let mut n: usize = 0;
    while n < a.len() && a[n] == '0'
        invariant
            n <= a@.len(),
            forall|k: int| 0 <= k < n ==> #[trigger] a@[k] == '0',
        decreases a@.len() - n,
    {
        n += 1;
    }
    n
}

fn digit_or_zero(a: &[char], i: usize, k: usize) -> (c: char)
    requires
        i <= a@.len(),
    ensures
        c == (if i + k < a@.len() {
            a@[i + k]
        } else {
            '0'
        }),
{
    if k < a.len() - i {
        a[i + k]
    } else {
        '0'
    }
}

/// Whether the first number is less than the second, signs aside.
pub fn is_less(a: &[char], pa: i128, b: &[char], pb: i128) -> (r: bool)
    requires
        only_digits(a@),
        only_digits(b@),
        -FAR <= pa <= FAR + usize::MAX,
        -FAR <= pb <= FAR + usize::MAX,
    ensures
        r == less(a@, pa as int, b@, pb as int),
{
    let (na, nb): (usize, usize) = (a.len(), b.len());
    let i: usize = zeros(a);
    let j: usize = zeros(b);
    proof {
        places_above_are_empty(a@, pa as int, i as int);
        places_above_are_empty(b@, pb as int, j as int);
    }
    if j == nb {
        // Nothing is less than zero.
        proof {
            if less(a@, pa as int, b@, pb as int) {
                let p = choose|p: int| #[trigger] less_at(a@, pa as int, b@, pb as int, p);
                zero_everywhere(b@, pb as int, p);
                assert(place(a@, pa as int, p) >= 0) by {
                    let k = pa - 1 - p;
                    assert(0 <= k < na ==> number::is_digit(a@[k]));
                }
            }
        }
        return false;
    }
    let top_b: i128 = pb - 1 - j as i128;
    assert(number::is_digit(b@[j as int]));
    assert(place(b@, pb as int, top_b as int) > 0);
    if i == na {
        proof {
            assert forall|q: int| q >= top_b implies #[trigger] place(a@, pa as int, q) == 0 by {
                zero_everywhere(a@, pa as int, q);
            }
            assert(less_at(a@, pa as int, b@, pb as int, top_b as int));
        }
        return true;
    }
    let top_a: i128 = pa - 1 - i as i128;
    assert(number::is_digit(a@[i as int]));
    assert(place(a@, pa as int, top_a as int) > 0);
    if top_a < top_b {
        proof {
            assert(less_at(a@, pa as int, b@, pb as int, top_b as int));
        }
        return true;
    }
    if top_a > top_b {
        proof {
            assert(less_at(b@, pb as int, a@, pa as int, top_a as int));
            decided(b@, pb as int, a@, pa as int, top_a as int);
        }
        return false;
    }
    let mut k: usize = 0;
    while k < na - i || k < nb - j
        invariant
            na == a@.len(),
            nb == b@.len(),
            i <= na,
            j <= nb,
            k <= na - i || k <= nb - j,
            only_digits(a@),
            only_digits(b@),
            top_a == pa - 1 - i,
            top_b == pb - 1 - j,
            top_a == top_b,
            same_above(a@, pa as int, b@, pb as int, top_a - k),
        decreases (na - i) + (nb - j) - 2 * k + if na - i > nb - j {
            (na - i) - (nb - j)
        } else {
            (nb - j) - (na - i)
        },
    {
        let x: char = digit_or_zero(a, i, k);
        let y: char = digit_or_zero(b, j, k);
        let ghost p = top_a - k;
        assert(i + k < na ==> number::is_digit(a@[i + k]));
        assert(j + k < nb ==> number::is_digit(b@[j + k]));
        assert(place(a@, pa as int, p) == x as u32 - '0' as u32);
        assert(place(b@, pb as int, p) == y as u32 - '0' as u32);
        if x < y {
            assert(less_at(a@, pa as int, b@, pb as int, p));
            return true;
        }
        if y < x {
            proof {
                assert(same_above(b@, pb as int, a@, pa as int, p)) by {
                    assert forall|q: int| q > p implies #[trigger] place(b@, pb as int, q) == place(
                        a@,
                        pa as int,
                        q,
                    ) by {
                        assert(place(a@, pa as int, q) == place(b@, pb as int, q));
                    }
                }
                assert(less_at(b@, pb as int, a@, pa as int, p));
                decided(b@, pb as int, a@, pa as int, p);
            }
            return false;
        }
        assert(same_above(a@, pa as int, b@, pb as int, p - 1)) by {
            assert forall|q: int| q > p - 1 implies #[trigger] place(a@, pa as int, q) == place(
                b@,
                pb as int,
                q,
            ) by {
                if q > p {
                    assert(place(a@, pa as int, q) == place(b@, pb as int, q));
                }
            }
        }
        k += 1;
    }
    proof {
        if less(a@, pa as int, b@, pb as int) {
            let p = choose|p: int| #[trigger] less_at(a@, pa as int, b@, pb as int, p);
            assert(place(a@, pa as int, p) == place(b@, pb as int, p));
        }
    }
    false
}

proof fn zero_everywhere(a: Seq<char>, pa: int, q: int)
    requires
        forall|k: int| 0 <= k < a.len() ==> #[trigger] a[k] == '0',
    ensures
        place(a, pa, q) == 0,
{
    let i = pa - 1 - q;
    if 0 <= i < a.len() {
        assert(a[i] == '0');
    }
}

/// Where the point is so far out that the number is surely greater, or surely
/// less, than another, it does not matter how far.
proof fn far_points_compare_alike(a: Seq<char>, p: int, q: int, b: Seq<char>, pb: int)
    requires
        only_digits(a),
        only_digits(b),
        b.len() > 0,
        b[0] != '0',
        p == q || (p - a.len() >= pb && q - a.len() >= pb) || (p < pb && q < pb),
    ensures
        less(a, p, b, pb) == less(a, q, b, pb),
        less(b, pb, a, p) == less(b, pb, a, q),
{
    if p < pb && q < pb {
        far_below(a, p, b, pb);
        far_below(a, q, b, pb);
    } else if p != q {
        if exists|k: int| 0 <= k < a.len() && a[k] != '0' {
            far_above(a, p, b, pb);
            far_above(a, q, b, pb);
        } else {
            assert forall|r: int|
                #![trigger place(a, p, r)]
                #![trigger place(a, q, r)]
                place(a, p, r) == 0 && place(a, q, r) == 0 by {
                zero_everywhere(a, p, r);
                zero_everywhere(a, q, r);
            }
            assert forall|r: int| less_at(a, p, b, pb, r) == less_at(a, q, b, pb, r) by {
                same_zero(a, p, q, b, pb, r);
            }
            assert forall|r: int| less_at(b, pb, a, p, r) == less_at(b, pb, a, q, r) by {
                same_zero(a, p, q, b, pb, r);
            }
            if less(a, p, b, pb) {
                let r = choose|r: int| #[trigger] less_at(a, p, b, pb, r);
                assert(less_at(a, q, b, pb, r));
            }
            if less(a, q, b, pb) {
                let r = choose|r: int| #[trigger] less_at(a, q, b, pb, r);
                assert(less_at(a, p, b, pb, r));
            }
            if less(b, pb, a, p) {
                let r = choose|r: int| #[trigger] less_at(b, pb, a, p, r);
                assert(less_at(b, pb, a, q, r));
            }
            if less(b, pb, a, q) {
                let r = choose|r: int| #[trigger] less_at(b, pb, a, q, r);
                assert(less_at(b, pb, a, p, r));
            }
        }
    }
}

proof fn same_zero(a: Seq<char>, p: int, q: int, b: Seq<char>, pb: int, r: int)
    requires
        forall|s: int|
            #![trigger place(a, p, s)]
            #![trigger place(a, q, s)]
            place(a, p, s) == 0 && place(a, q, s) == 0,
    ensures
        less_at(a, p, b, pb, r) == less_at(a, q, b, pb, r),
        less_at(b, pb, a, p, r) == less_at(b, pb, a, q, r),
{
    assert(same_above(a, p, b, pb, r) == same_above(a, q, b, pb, r)) by {
        if same_above(a, p, b, pb, r) {
            assert forall|s: int| s > r implies #[trigger] place(a, q, s) == place(b, pb, s) by {
                assert(place(a, p, s) == place(b, pb, s));
            }
        }
        if same_above(a, q, b, pb, r) {
            assert forall|s: int| s > r implies #[trigger] place(a, p, s) == place(b, pb, s) by {
                assert(place(a, q, s) == place(b, pb, s));
            }
        }
    }
    assert(same_above(b, pb, a, p, r) == same_above(b, pb, a, q, r)) by {
        if same_above(b, pb, a, p, r) {
            assert forall|s: int| s > r implies #[trigger] place(b, pb, s) == place(a, q, s) by {
                assert(place(b, pb, s) == place(a, p, s));
            }
        }
        if same_above(b, pb, a, q, r) {
            assert forall|s: int| s > r implies #[trigger] place(b, pb, s) == place(a, p, s) by {
                assert(place(b, pb, s) == place(a, q, s));
            }
        }
    }
}

/// A number whose digits all stand below another's first digit is less.
pub proof fn far_below(a: Seq<char>, pa: int, b: Seq<char>, pb: int)
    requires
        only_digits(b),
        b.len() > 0,
        b[0] != '0',
        pa < pb,
    ensures
        less(a, pa, b, pb),
        !less(b, pb, a, pa),
{
    assert(number::is_digit(b[0]));
    assert(less_at(a, pa, b, pb, pb - 1));
    decided(a, pa, b, pb, pb - 1);
}

/// A number other than zero whose digits all stand above another's is greater.
pub proof fn far_above(a: Seq<char>, pa: int, b: Seq<char>, pb: int)
    requires
        only_digits(a),
        exists|k: int| 0 <= k < a.len() && a[k] != '0',
        pa - a.len() >= pb,
    ensures
        !less(a, pa, b, pb),
        less(b, pb, a, pa),
{
    let k = first_digit(a, 0);
    assert(number::is_digit(a[k]));
    places_above_are_empty(a, pa, k);
    let p = pa - 1 - k;
    assert(less_at(b, pb, a, pa, p)) by {
        assert forall|q: int| q > p implies #[trigger] place(b, pb, q) == place(a, pa, q) by {
            assert(place(a, pa, q) == 0);
        }
    }
    decided(b, pb, a, pa, p);
}

/// The first digit that is no zero.
proof fn first_digit(a: Seq<char>, from: int) -> (k: int)
    requires
        0 <= from <= a.len(),
        exists|k: int| from <= k < a.len() && a[k] != '0',
        forall|k: int| 0 <= k < from ==> #[trigger] a[k] == '0',
    ensures
        0 <= k < a.len(),
        a[k] != '0',
        forall|j: int| 0 <= j < k ==> #[trigger] a[j] == '0',
    decreases a.len() - from,
{
    if a[from] != '0' {
        from
    } else {
        first_digit(a, from + 1)
    }
}

impl Decimal {
    proof fn compares_like(self, number: DecimalView, digits: Seq<char>, point: int)
        requires
            self.stands_for(number),
            self.digits@.len() <= usize::MAX,
            only_digits(digits),
            digits.len() > 0,
            digits[0] != '0',
            -1000 <= point <= 1000,
        ensures
            less(self.digits@, self.point as int, digits, point) == less(
                number.digits,
                number.point,
                digits,
                point,
            ),
            less(digits, point, self.digits@, self.point as int) == less(
                digits,
                point,
                number.digits,
                number.point,
            ),
    {
        far_points_compare_alike(self.digits@, self.point as int, number.point, digits, point);
    }

    /// Whether the number that was read is less than another, signs aside.
    pub fn is_less_than(&self, digits: &[char], point: i128) -> (r: bool)
        requires
            self.wf(),
            only_digits(digits@),
            digits@.len() > 0,
            digits@[0] != '0',
            -1000 <= point <= 1000,
        ensures
            forall|number: DecimalView| #[trigger]
                self.stands_for(number) ==> r == less(
                    number.digits,
                    number.point,
                    digits@,
                    point as int,
                ),
    {
        let own: &[char] = self.digits.as_slice();
        assert(self.digits.len() <= usize::MAX);
        assert forall|number: DecimalView| #[trigger] self.stands_for(number) implies less(
            own@,
            self.point as int,
            digits@,
            point as int,
        ) == less(number.digits, number.point, digits@, point as int) by {
            self.compares_like(number, digits@, point as int);
        }
        is_less(own, self.point, digits, point)
    }

    /// Whether the number that was read is greater than another, signs aside.
    pub fn is_greater_than(&self, digits: &[char], point: i128) -> (r: bool)
        requires
            self.wf(),
            only_digits(digits@),
            digits@.len() > 0,
            digits@[0] != '0',
            -1000 <= point <= 1000,
        ensures
            forall|number: DecimalView| #[trigger]
                self.stands_for(number) ==> r == less(
                    digits@,
                    point as int,
                    number.digits,
                    number.point,
                ),
    {
        let own: &[char] = self.digits.as_slice();
        assert(self.digits.len() <= usize::MAX);
        assert forall|number: DecimalView| #[trigger] self.stands_for(number) implies less(
            digits@,
            point as int,
            own@,
            self.point as int,
        ) == less(digits@, point as int, number.digits, number.point) by {
            self.compares_like(number, digits@, point as int);
        }
        is_less(digits, point, own, self.point)
    }
}

} // verus!
