//! Trailing-debounce coalescing.
//!
//! Device and config events coalesce over a window into a single action: a
//! burst fires once, `window` after its last event. This module is the pure
//! model of what the daemon's device loop does with real timers.

use vstd::prelude::*;

verus! {

/// The sum of two numbers, or the largest `u64`.
pub open spec fn plus(a: u64, b: u64) -> u64 {
    if a + b <= u64::MAX {
        (a + b) as u64
    } else {
        u64::MAX
    }
}

/// Event `i` is the last of its burst: nothing follows it, or the next event
/// comes more than the window later.
pub open spec fn ends_burst(events: Seq<u64>, window: u64, i: int) -> bool {
    i + 1 == events.len() || events[i + 1] > events[i] + window
}

/// The fire times: for each event that ends its burst, the window later.
pub open spec fn fires(events: Seq<u64>, window: u64) -> Seq<u64>
    decreases events.len(),
{
    if events.len() == 0 {
        Seq::empty()
    } else {
        let rest = fires(events.skip(1), window);
        if ends_burst(events, window, 0) {
            seq![plus(events[0], window)] + rest
        } else {
            rest
        }
    }
}

/// How many events are followed by a gap longer than the window.
pub open spec fn big_gaps(events: Seq<u64>, window: u64) -> nat
    decreases events.len(),
{
    if events.len() <= 1 {
        0
    } else {
        big_gaps(events.skip(1), window) + (if events[1] > events[0] + window {
            1nat
        } else {
            0
        })
    }
}

/// The events come in order of time.
pub open spec fn ascending(events: Seq<u64>) -> bool {
    forall|i: int, j: int| 0 <= i <= j < events.len() ==> events[i] <= events[j]
}

/// A trailing debouncer parameterized by its coalescing window.
#[derive(Debug, Clone, Copy)]
pub struct Debouncer {
    window_ms: u64,
}

impl Debouncer {
    /// The window in milliseconds.
    pub closed spec fn window_of(self) -> u64 {
        self.window_ms
    }

    /// A debouncer with the given coalescing window, in milliseconds.
    pub fn new(window_ms: u64) -> (r: Self)
        ensures
            r.window_of() == window_ms,
    {
        Debouncer { window_ms }
    }

    /// The coalescing window, in milliseconds.
    pub fn window(&self) -> (r: u64)
        ensures
            r == self.window_of(),
    {
        self.window_ms
    }

    /// Fire times (ms) for a sequence of event times (ascending ms).
    ///
    /// Two consecutive events belong to the same burst iff they are within
    /// `window` of each other; each burst fires once, `window` after its last
    /// event. An empty input never fires.
    pub fn coalesce(&self, events_ms: &[u64]) -> (r: Vec<u64>)
        ensures
            r@ == fires(events_ms@, self.window_of()),
    {
        let mut out: Vec<u64> = Vec::new();
        let n: usize = events_ms.len();
        if n == 0 {
            return out;
        }
        let mut last: u64 = events_ms[0];
        let mut i: usize = 1;
        let ghost all = events_ms@;
        let ghost w = self.window_ms;
        assert(all.skip(0) =~= all);
        while i < n
            invariant
                1 <= i <= n,
                n == events_ms@.len(),
                all == events_ms@,
                w == self.window_ms,
                last == all[i - 1],
                out@ + fires(all.skip(i - 1), w) == fires(all, w),
            decreases n - i,
        {
            let ghost before = out@;
            let ghost rest = all.skip(i - 1);
            let event: u64 = events_ms[i];
            assert(rest.skip(1) =~= all.skip(i as int));
            assert(rest[0] == last && rest[1] == event);
            // Debounce inputs are monotonic; guard against out-of-order noise.
            let gap: u64 = event.saturating_sub(last);
            if gap > self.window_ms {
                // The previous burst's timer already elapsed: it fires, and a
                // new burst begins at this event.
                out.push(last.saturating_add(self.window_ms));
                assert(out@ + fires(all.skip(i as int), w) =~= before + fires(rest, w));
            }
            last = event;
            i += 1;
        }
        let ghost tail = all.skip(n - 1);
        assert(tail.skip(1) =~= Seq::<u64>::empty());
        assert(fires(tail.skip(1), w) =~= Seq::<u64>::empty());
        assert(fires(tail, w) =~= seq![plus(last, w)]);
        out.push(last.saturating_add(self.window_ms));
        assert(out@ =~= fires(all, w));
        out
    }
}

/// One fire per burst: the count is one more than the number of gaps longer
/// than the window, so at least one and at most one per event.
pub proof fn one_fire_per_burst(events: Seq<u64>, window: u64)
    requires
        events.len() > 0,
    ensures
        fires(events, window).len() == big_gaps(events, window) + 1,
        1 <= fires(events, window).len() <= events.len(),
    decreases events.len(),
{
    let rest = events.skip(1);
    if events.len() > 1 {
        one_fire_per_burst(rest, window);
        assert(rest[0] == events[1]);
    } else {
        assert(rest =~= Seq::<u64>::empty());
        assert(fires(rest, window).len() == 0);
    }
}

/// Every fire time is the window after some event.
proof fn fires_follow_events(events: Seq<u64>, window: u64, k: int)
    requires
        0 <= k < fires(events, window).len(),
    ensures
        exists|i: int|
            0 <= i < events.len() && fires(events, window)[k] == plus(
                #[trigger] events[i],
                window,
            ),
    decreases events.len(),
{
    let rest = events.skip(1);
    let shift: int = if ends_burst(events, window, 0) {
        1
    } else {
        0
    };
    if shift == 1 && k == 0 {
        assert(fires(events, window)[0] == plus(events[0], window));
    } else {
        fires_follow_events(rest, window, k - shift);
        let i = choose|i: int|
            0 <= i < rest.len() && fires(rest, window)[k - shift] == plus(
                #[trigger] rest[i],
                window,
            );
        assert(events[i + 1] == rest[i]);
    }
}

/// Fires are strictly increasing, as long as no fire time passes the largest
/// time.
pub proof fn fires_strictly_increase(events: Seq<u64>, window: u64)
    requires
        ascending(events),
        events.len() > 0 ==> events.last() + window <= u64::MAX,
    ensures
        forall|i: int, j: int|
            0 <= i < j < fires(events, window).len() ==> fires(events, window)[i] < fires(
                events,
                window,
            )[j],
    decreases events.len(),
{
    if events.len() > 0 {
        let rest = events.skip(1);
        assert(ascending(rest));
        if rest.len() > 0 {
            assert(rest.last() == events.last());
        }
        fires_strictly_increase(rest, window);
        let f = fires(events, window);
        let g = fires(rest, window);
        if ends_burst(events, window, 0) {
            assert forall|i: int, j: int| 0 <= i < j < f.len() implies f[i] < f[j] by {
                assert(f[j] == g[j - 1]);
                if i > 0 {
                    assert(f[i] == g[i - 1]);
                } else {
                    fires_follow_events(rest, window, j - 1);
                    let k = choose|k: int|
                        0 <= k < rest.len() && g[j - 1] == plus(#[trigger] rest[k], window);
                    assert(rest[k] == events[k + 1]);
                    assert(events[1] <= events[k + 1]);
                    assert(events[k + 1] <= events[events.len() - 1]);
                }
            }
        }
    }
}

/// A storm, in which no event comes more than the window after the one before
/// it, fires exactly once: the window after its last event.
pub proof fn storm_is_one_fire(events: Seq<u64>, window: u64)
    requires
        events.len() > 0,
        forall|i: int|
            0 <= i < events.len() - 1 ==> #[trigger] events[i + 1] <= events[i] + window,
    ensures
        fires(events, window) == seq![plus(events.last(), window)],
    decreases events.len(),
{
    let rest = events.skip(1);
    if events.len() > 1 {
        assert(events[0int + 1] <= events[0] + window);
        assert forall|i: int| 0 <= i < rest.len() - 1 implies #[trigger] rest[i + 1] <= rest[i]
            + window by {
            assert(events[(i + 1) + 1] <= events[i + 1] + window);
        }
        storm_is_one_fire(rest, window);
    } else {
        assert(rest =~= Seq::<u64>::empty());
        assert(fires(rest, window) =~= Seq::<u64>::empty());
        assert(fires(events, window) =~= seq![plus(events.last(), window)]);
    }
}

} // verus!
