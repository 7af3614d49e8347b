//! Fixed-capacity in-memory log ring: the newest N formatted log lines, served
//! over IPC by `GetLogs`/`FollowLogs`.
//!
//! Pure data structure: capturing log events and the broadcast to followers
//! are the daemon's job. It is never fed keystrokes or `.kbd` contents.

use std::collections::VecDeque;

use vstd::prelude::*;

verus! {

/// Default ring capacity.
pub const DEFAULT_LOG_CAPACITY: usize = 2000;

/// The last `n` lines, or all of them when there are fewer.
pub open spec fn newest(lines: Seq<Seq<char>>, n: nat) -> Seq<Seq<char>> {
    if lines.len() <= n {
        lines
    } else {
        lines.skip(lines.len() - n)
    }
}

/// A bounded ring of formatted log lines; pushing beyond capacity drops the
/// oldest line.
#[derive(Debug)]
pub struct LogRing {
    capacity: usize,
    lines: VecDeque<String>,
}

impl View for LogRing {
    type V = Seq<Seq<char>>;

    /// The buffered lines, oldest first.
    closed spec fn view(&self) -> Seq<Seq<char>> {
        self.lines.deep_view()
    }
}

impl LogRing {
    /// How many lines the ring holds at most.
    pub closed spec fn limit(self) -> nat {
        self.capacity as nat
    }

    /// The ring holds at least one line's worth of room and never too many.
    pub closed spec fn wf(self) -> bool {
        self.capacity >= 1 && self.lines@.len() <= self.capacity
    }

    /// An empty ring holding at most `capacity` lines (at least 1).
    pub fn new(capacity: usize) -> (r: Self)
        ensures
            r.wf(),
            r@ == Seq::<Seq<char>>::empty(),
            r.limit() == (if capacity == 0 {
                1
            } else {
                capacity as nat
            }),
    {
        let r = LogRing {
            capacity: if capacity == 0 {
                1
            } else {
                capacity
            },
            lines: VecDeque::new(),
        };
        assert(r@ =~= Seq::<Seq<char>>::empty());
        r
    }

    /// Append a line, evicting the oldest when full.
    pub fn push(&mut self, line: String)
        requires
            old(self).wf(),
        ensures
            final(self).wf(),
            final(self).limit() == old(self).limit(),
            final(self)@ == newest(old(self)@.push(line@), old(self).limit()),
    {
        if self.lines.len() == self.capacity {
            let _ = self.lines.pop_front();
        }
        self.lines.push_back(line);
        assert(self@ =~= newest(old(self)@.push(line@), old(self).limit()));
    }

    /// The newest `n` lines, oldest first (ready to print in order).
    pub fn last(&self, n: usize) -> (r: Vec<String>)
        ensures
            r.deep_view() == newest(self@, n as nat),
    {
        let mut r: Vec<String> = Vec::new();
        let len: usize = self.lines.len();
        let skip: usize = len.saturating_sub(n);
        let mut i: usize = skip;
        while i < len
            invariant
                skip <= i <= len,
                len == self.lines@.len(),
                r@.len() == i - skip,
                forall|k: int| 0 <= k < i - skip ==> r@[k]@ == self.lines@[skip + k]@,
            decreases len - i,
        {
            r.push(self.lines[i].clone());
            i += 1;
        }
        assert(r.deep_view() =~= newest(self@, n as nat));
        r
    }

    /// Number of buffered lines.
    pub fn len(&self) -> (r: usize)
        ensures
            r == self@.len(),
    {
        self.lines.len()
    }

    /// Whether the ring is empty.
    pub fn is_empty(&self) -> (r: bool)
        ensures
            r == (self@.len() == 0),
    {
        self.lines.len() == 0
    }

    /// A ring never holds more lines than its limit.
    pub proof fn bounded(self)
        requires
            self.wf(),
        ensures
            1 <= self.limit(),
            self@.len() <= self.limit(),
    {
    }
}

impl Default for LogRing {
    fn default() -> (r: Self)
        ensures
            r.wf(),
            r@ == Seq::<Seq<char>>::empty(),
            r.limit() == DEFAULT_LOG_CAPACITY,
    {
        LogRing::new(DEFAULT_LOG_CAPACITY)
    }
}

/// What a ring of the given limit holds after pushing the lines in order.
pub open spec fn after_pushes(
    start: Seq<Seq<char>>,
    lines: Seq<Seq<char>>,
    limit: nat,
) -> Seq<Seq<char>>
    decreases lines.len(),
{
    if lines.len() == 0 {
        start
    } else {
        newest(after_pushes(start, lines.drop_last(), limit).push(lines.last()), limit)
    }
}

/// However many lines were pushed into an empty ring, it holds the newest of
/// them, and its last `n` are the last `n` that were pushed, as far as the
/// limit goes.
pub proof fn keeps_the_newest(lines: Seq<Seq<char>>, limit: nat, n: nat)
    requires
        limit >= 1,
    ensures
        after_pushes(Seq::empty(), lines, limit) == newest(lines, limit),
        newest(after_pushes(Seq::empty(), lines, limit), n) == newest(
            lines,
            if n <= limit {
                n
            } else {
                limit
            },
        ),
    decreases lines.len(),
{
    if lines.len() > 0 {
        let before = lines.drop_last();
        keeps_the_newest(before, limit, n);
        assert(newest(newest(before, limit).push(lines.last()), limit) =~= newest(lines, limit));
    }
    assert(newest(newest(lines, limit), n) =~= newest(
        lines,
        if n <= limit {
            n
        } else {
            limit
        },
    ));
}

} // verus!
