//! The VHID heartbeat and the lines that matter.

use vstd::prelude::*;

use crate::kanata;
use crate::text;

verus! {

/// No text of the heartbeat holds one of these: every phrase that reports a
/// fault or the backend's health does.
spec fn telling(s: Seq<char>, m: int) -> bool {
    ||| s[m] == 'p'
    ||| s[m] == 'x'
    ||| m + 1 < s.len() && s[m] == 'd' && s[m + 1] == 'd'
}

spec fn tells_nothing(s: Seq<char>) -> bool {
    forall|m: int| 0 <= m < s.len() ==> !#[trigger] telling(s, m)
}

proof fn ready_true_tells_nothing()
    ensures
        tells_nothing(text::lower("virtual_hid_keyboard_ready true"@)),
{
    reveal_strlit("virtual_hid_keyboard_ready true");
    let s = text::lower("virtual_hid_keyboard_ready true"@);
    assert forall|m: int| 0 <= m < s.len() implies !#[trigger] telling(s, m) by {
        assert(m == 0 || m == 1 || m == 2 || m == 3 || m == 4 || m == 5 || m == 6 || m == 7
            || m == 8 || m == 9 || m == 10 || m == 11 || m == 12 || m == 13 || m == 14
            || m == 15 || m == 16 || m == 17 || m == 18 || m == 19 || m == 20 || m == 21
            || m == 22 || m == 23 || m == 24 || m == 25 || m == 26 || m == 27 || m == 28
            || m == 29 || m == 30);
    }
}

proof fn ready_false_tells_nothing()
    ensures
        tells_nothing(text::lower("virtual_hid_keyboard_ready false"@)),
{
    reveal_strlit("virtual_hid_keyboard_ready false");
    let s = text::lower("virtual_hid_keyboard_ready false"@);
    assert forall|m: int| 0 <= m < s.len() implies !#[trigger] telling(s, m) by {
        assert(m == 0 || m == 1 || m == 2 || m == 3 || m == 4 || m == 5 || m == 6 || m == 7
            || m == 8 || m == 9 || m == 10 || m == 11 || m == 12 || m == 13 || m == 14
            || m == 15 || m == 16 || m == 17 || m == 18 || m == 19 || m == 20 || m == 21
            || m == 22 || m == 23 || m == 24 || m == 25 || m == 26 || m == 27 || m == 28
            || m == 29 || m == 30 || m == 31);
    }
}

proof fn connected_tells_nothing()
    ensures
        tells_nothing(text::lower("connected"@)),
{
    reveal_strlit("connected");
    let s = text::lower("connected"@);
    assert forall|m: int| 0 <= m < s.len() implies !#[trigger] telling(s, m) by {
        assert(m == 0 || m == 1 || m == 2 || m == 3 || m == 4 || m == 5 || m == 6 || m == 7
            || m == 8);
    }
}

proof fn activated_tells_nothing()
    ensures
        tells_nothing(text::lower("driver activated: true"@)),
{
    reveal_strlit("driver activated: true");
    let s = text::lower("driver activated: true"@);
    assert forall|m: int| 0 <= m < s.len() implies !#[trigger] telling(s, m) by {
        assert(m == 0 || m == 1 || m == 2 || m == 3 || m == 4 || m == 5 || m == 6 || m == 7
            || m == 8 || m == 9 || m == 10 || m == 11 || m == 12 || m == 13 || m == 14
            || m == 15 || m == 16 || m == 17 || m == 18 || m == 19 || m == 20 || m == 21);
    }
}

proof fn driver_connected_tells_nothing()
    ensures
        tells_nothing(text::lower("driver connected: true"@)),
{
    reveal_strlit("driver connected: true");
    let s = text::lower("driver connected: true"@);
    assert forall|m: int| 0 <= m < s.len() implies !#[trigger] telling(s, m) by {
        assert(m == 0 || m == 1 || m == 2 || m == 3 || m == 4 || m == 5 || m == 6 || m == 7
            || m == 8 || m == 9 || m == 10 || m == 11 || m == 12 || m == 13 || m == 14
            || m == 15 || m == 16 || m == 17 || m == 18 || m == 19 || m == 20 || m == 21);
    }
}

proof fn matched_tells_nothing()
    ensures
        tells_nothing(text::lower("driver version matched: true"@)),
{
    reveal_strlit("driver version matched: true");
    let s = text::lower("driver version matched: true"@);
    assert forall|m: int| 0 <= m < s.len() implies !#[trigger] telling(s, m) by {
        assert(m == 0 || m == 1 || m == 2 || m == 3 || m == 4 || m == 5 || m == 6 || m == 7
            || m == 8 || m == 9 || m == 10 || m == 11 || m == 12 || m == 13 || m == 14
            || m == 15 || m == 16 || m == 17 || m == 18 || m == 19 || m == 20 || m == 21
            || m == 22 || m == 23 || m == 24 || m == 25 || m == 26 || m == 27);
    }
}

proof fn heartbeat_tells_nothing(i: int)
    requires
        0 <= i < kanata::VHID_STATUS_NOISE@.len(),
    ensures
        tells_nothing(text::lower(kanata::VHID_STATUS_NOISE@[i]@)),
{
    ready_true_tells_nothing();
    ready_false_tells_nothing();
    connected_tells_nothing();
    activated_tells_nothing();
    driver_connected_tells_nothing();
    matched_tells_nothing();
}

/// The phrase begins and ends with something else than white space.
spec fn tight(phrase: Seq<char>) -> bool {
    &&& phrase.len() > 0
    &&& !text::is_white(phrase[0])
    &&& !text::is_white(phrase.last())
}

/// Trimming a line loses no tight phrase.
proof fn phrase_survives_trimming(line: Seq<char>, phrase: Seq<char>)
    requires
        tight(phrase),
        kanata::says(line, phrase),
    ensures
        kanata::says(text::trimmed(line), phrase),
{
    let low = text::lower(line);
    let i = choose|i: int| text::occurs_at(low, phrase, i);
    let n = phrase.len();
    let from = text::lead(line, text::white());
    let rest = text::drop_lead(line, text::white());
    let tail = text::trail(rest, text::white());
    let core = text::trimmed(line);
    text::lead_is_longest(line, text::white());
    text::trail_is_longest(rest, text::white());
    let part = low.subrange(i, i + n);
    assert(part[0] == low[i]);
    assert(part[n - 1] == low[i + n - 1]);
    if i < from {
        assert(text::white()(line[i]));
    }
    let last = i + n - 1;
    if last >= from + core.len() {
        assert(rest[last - from] == line[last]);
        assert(text::white()(rest[last - from]));
    }
    let lowered = text::lower(core);
    assert(lowered.subrange(i - from, i - from + n) =~= phrase) by {
        assert forall|k: int| 0 <= k < n implies lowered[i - from + k] == phrase[k] by {
            assert(part[k] == low[i + k]);
        }
    }
    assert(text::occurs_at(lowered, phrase, i - from));
}

/// A phrase that tells something is in no text that tells nothing.
proof fn telling_phrase_is_absent(s: Seq<char>, phrase: Seq<char>, m: int)
    requires
        tells_nothing(s),
        0 <= m < phrase.len(),
        telling(phrase, m),
    ensures
        !text::occurs(s, phrase),
{
    if text::occurs(s, phrase) {
        let i = choose|i: int| text::occurs_at(s, phrase, i);
        let part = s.subrange(i, i + phrase.len());
        assert(part[m] == s[i + m]);
        if m + 1 < phrase.len() {
            assert(part[m + 1] == s[i + m + 1]);
        }
        assert(telling(s, i + m));
    }
}

proof fn unsaid(line: Seq<char>, phrase: Seq<char>, m: int)
    requires
        kanata::vhid_noise(line),
        tight(phrase),
        0 <= m < phrase.len(),
        telling(phrase, m),
    ensures
        !kanata::says(line, phrase),
{
    let i = choose|i: int|
        0 <= i < kanata::VHID_STATUS_NOISE@.len() && #[trigger] kanata::VHID_STATUS_NOISE@[i]@
            == text::trimmed(line);
    heartbeat_tells_nothing(i);
    telling_phrase_is_absent(text::lower(text::trimmed(line)), phrase, m);
    if kanata::says(line, phrase) {
        phrase_survives_trimming(line, phrase);
    }
}

/// Relaying the heartbeat quietly hides nothing: a line that is heartbeat noise
/// reports no fault and no change of the backend.
pub proof fn noise_is_never_a_signal(line: Seq<char>)
    requires
        kanata::vhid_noise(line),
    ensures
        !kanata::says_denied(line),
        !kanata::says_device_held(line),
        !kanata::says_port_held(line),
        !kanata::says_backend_up(line),
        !kanata::says_backend_down(line),
{
    reveal_strlit("privilege violation");
    reveal_strlit("not permitted");
    reveal_strlit("input monitoring permission");
    reveal_strlit("exclusive access");
    reveal_strlit("already open");
    reveal_strlit("address already in use");
    reveal_strlit("addrinuse");
    reveal_strlit("output backend and console session ready");
    reveal_strlit("output backend not ready after");
    reveal_strlit("output backend unavailable");
    unsaid(line, "privilege violation"@, 0);
    unsaid(line, "not permitted"@, 4);
    unsaid(line, "input monitoring permission"@, 2);
    unsaid(line, "exclusive access"@, 1);
    unsaid(line, "already open"@, 9);
    unsaid(line, "address already in use"@, 1);
    unsaid(line, "addrinuse"@, 1);
    unsaid(line, "output backend and console session ready"@, 3);
    unsaid(line, "output backend not ready after"@, 3);
    unsaid(line, "output backend unavailable"@, 3);
}

} // verus!
