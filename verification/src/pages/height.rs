//! The content heights that a page may report.
//!
//! A height is a number of logical pixels in text, which the shell turns into a
//! floating-point number: the closest one, a tie going to the even one. What that
//! number would be need not be known to tell whether a window can have it.

use vstd::prelude::*;

use crate::text::decimal::{self, read};
use crate::text::{self, chars_of, number};

verus! {

broadcast use vstd::string::group_string_axioms;

/// 2¹⁰²⁴ − 2⁹⁷⁰: numbers from here on are closest to infinity.
pub const INFINITE: &'static str =
    "179769313486231580793728971405303415079934132710037826936173778980444968292764750946649017977587207096330286416692887910946555547851940402630657488671505820681908902000708383676273854845817711531764475730270069855571366959622842914819860834936475292719074168444365510704342711559699508093042880177904174497792";

/// The point of [`INFINITE`] stands behind its last digit.
pub const INFINITE_POINT: i128 = 309;

/// 2⁻¹⁰⁷⁵: numbers up to this one are closest to zero.
pub const NOTHING: &'static str =
    "24703282292062327208828439643411068618252990130716238221279284125033775363510437593264991818081799618989828234772285886546332835517796989819938739800539093906315035659515570226392290858392449105184435931802849936536152500319370457678249219365623669863658480757001585769269903706311928279558551332927834338409351978015531246597263579574622766465272827220056374006485499977096599470454020828166226237857393450736339007967761930577506740176324673600968951340535537458516661134223766678604162159680461914467291840300530057530849048765391711386591646239524912623653881879636239373280423891018672348497668235089863388587925628302755995657524455507255189313690836254779186948667994968324049705821028513185451396213837722826145437693412532098591327667236328125";

/// The point of [`NOTHING`] stands that far before its first digit.
pub const NOTHING_POINT: i128 = -323;

/// The text writes a height: a number that is neither infinite nor below zero.
/// A number with a minus sign is not below zero where it is closest to zero.
pub open spec fn is_height(s: Seq<char>) -> bool {
    match decimal::written(s) {
        Some(n) => if n.negative {
            !decimal::less(NOTHING@, NOTHING_POINT as int, n.digits, n.point)
        } else {
            decimal::less(n.digits, n.point, INFINITE@, INFINITE_POINT as int)
        },
        None => false,
    }
}

/// The first `k` characters are digits.
spec fn digits_to(s: Seq<char>, k: nat) -> bool
    decreases k,
{
    k == 0 || (number::is_digit(s[k - 1]) && digits_to(s, (k - 1) as nat))
}

proof fn digits_all(s: Seq<char>, k: nat)
    requires
        digits_to(s, k),
    ensures
        forall|i: int| 0 <= i < k ==> number::is_digit(#[trigger] s[i]),
    decreases k,
{
    if k > 0 {
        digits_all(s, (k - 1) as nat);
    }
}

proof fn infinite_is_digits()
    ensures
        decimal::only_digits(INFINITE@),
        INFINITE@.len() > 0,
        INFINITE@[0] != '0',
{
    reveal_with_fuel(digits_to, 31);
    reveal_strlit(
        "179769313486231580793728971405303415079934132710037826936173778980444968292764750946649017977587207096330286416692887910946555547851940402630657488671505820681908902000708383676273854845817711531764475730270069855571366959622842914819860834936475292719074168444365510704342711559699508093042880177904174497792",
    );
    assert(digits_to(INFINITE@, 30));
    assert(digits_to(INFINITE@, 60));
    assert(digits_to(INFINITE@, 90));
    assert(digits_to(INFINITE@, 120));
    assert(digits_to(INFINITE@, 150));
    assert(digits_to(INFINITE@, 180));
    assert(digits_to(INFINITE@, 210));
    assert(digits_to(INFINITE@, 240));
    assert(digits_to(INFINITE@, 270));
    assert(digits_to(INFINITE@, 300));
    assert(digits_to(INFINITE@, 309));
    digits_all(INFINITE@, 309);
}

proof fn nothing_is_digits()
    ensures
        decimal::only_digits(NOTHING@),
        NOTHING@.len() > 0,
        NOTHING@[0] != '0',
{
    reveal_with_fuel(digits_to, 31);
    reveal_strlit(
        "24703282292062327208828439643411068618252990130716238221279284125033775363510437593264991818081799618989828234772285886546332835517796989819938739800539093906315035659515570226392290858392449105184435931802849936536152500319370457678249219365623669863658480757001585769269903706311928279558551332927834338409351978015531246597263579574622766465272827220056374006485499977096599470454020828166226237857393450736339007967761930577506740176324673600968951340535537458516661134223766678604162159680461914467291840300530057530849048765391711386591646239524912623653881879636239373280423891018672348497668235089863388587925628302755995657524455507255189313690836254779186948667994968324049705821028513185451396213837722826145437693412532098591327667236328125",
    );
    assert(digits_to(NOTHING@, 30));
    assert(digits_to(NOTHING@, 60));
    assert(digits_to(NOTHING@, 90));
    assert(digits_to(NOTHING@, 120));
    assert(digits_to(NOTHING@, 150));
    assert(digits_to(NOTHING@, 180));
    assert(digits_to(NOTHING@, 210));
    assert(digits_to(NOTHING@, 240));
    assert(digits_to(NOTHING@, 270));
    assert(digits_to(NOTHING@, 300));
    assert(digits_to(NOTHING@, 330));
    assert(digits_to(NOTHING@, 360));
    assert(digits_to(NOTHING@, 390));
    assert(digits_to(NOTHING@, 420));
    assert(digits_to(NOTHING@, 450));
    assert(digits_to(NOTHING@, 480));
    assert(digits_to(NOTHING@, 510));
    assert(digits_to(NOTHING@, 540));
    assert(digits_to(NOTHING@, 570));
    assert(digits_to(NOTHING@, 600));
    assert(digits_to(NOTHING@, 630));
    assert(digits_to(NOTHING@, 660));
    assert(digits_to(NOTHING@, 690));
    assert(digits_to(NOTHING@, 720));
    assert(digits_to(NOTHING@, 750));
    assert(digits_to(NOTHING@, 752));
    digits_all(NOTHING@, 752);
}

/// Whether the text writes a height.
pub fn reports_height(s: &str) -> (r: bool)
    ensures
        r == is_height(s@),
{
    match read(s) {
        Some(n) => {
            proof {
                infinite_is_digits();
                nothing_is_digits();
                assert(n.stands_for(decimal::written(s@)->0));
            }
            if n.negative {
                let limit = chars_of(NOTHING);
                !n.is_greater_than(limit.as_slice(), NOTHING_POINT)
            } else {
                let limit = chars_of(INFINITE);
                n.is_less_than(limit.as_slice(), INFINITE_POINT)
            }
        },
        None => false,
    }
}

/// What a page measures, a whole number of pixels, is a height.
pub proof fn whole_numbers_are_heights(s: Seq<char>)
    requires
        number::all_digits(s),
        s.len() < INFINITE_POINT,
    ensures
        is_height(s),
{
    assert(number::is_digit(s[0]));
    assert forall|k: int| 0 <= k < s.len() implies number::digits()(#[trigger] s[k]) by {}
    text::lead_is(s, number::digits(), s.len());
    assert(s.take(s.len() as int) + Seq::<char>::empty() =~= s);
    assert(s.skip(s.len() as int).len() == 0);
    infinite_is_digits();
    decimal::far_below(s, s.len() as int, INFINITE@, INFINITE_POINT as int);
}

/// What does not begin like a number is no height: no name for infinity or for
/// what is not a number, and no empty text.
pub proof fn words_are_no_heights(s: Seq<char>)
    requires
        s.len() == 0 || !(number::is_digit(s[0]) || s[0] == '.' || s[0] == '+' || s[0] == '-'),
    ensures
        !is_height(s),
{
}

/// A whole number with a minus sign is no height, unless it is all zeros.
pub proof fn negative_numbers_are_no_heights(s: Seq<char>, k: int)
    requires
        number::all_digits(s),
        0 <= k < s.len(),
        s[k] != '0',
    ensures
        !is_height(seq!['-'] + s),
{
    let t = seq!['-'] + s;
    assert(t.skip(1) =~= s);
    assert forall|k: int| 0 <= k < s.len() implies number::digits()(#[trigger] s[k]) by {}
    text::lead_is(s, number::digits(), s.len());
    assert(s.take(s.len() as int) + Seq::<char>::empty() =~= s);
    assert(s.skip(s.len() as int).len() == 0);
    decimal::far_above(s, s.len() as int, NOTHING@, NOTHING_POINT as int);
}

} // verus!
