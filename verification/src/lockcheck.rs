//! Mutual-exclusion observation. Every operation against a shared device
//! handle runs between one lock acquisition and the matching release, so a
//! recorded entry/exit trace of those operations must show no overlap: each
//! entry is followed immediately by its own thread's exit. This module
//! verifies the checker for such traces; the exclusion itself is the lock's
//! guarantee.

use vstd::prelude::*;

verus! {

/// One observation against the shared handle: a thread entered an operation
/// (configure or read) or exited it.
#[derive(Clone, Copy, Debug, PartialEq, Eq, Structural)]
pub enum HandleEvent {
    Enter { thread: u64 },
    Exit { thread: u64 },
}

/// A trace shows serialized access iff it is a sequence of immediately
/// closed operations: every entry is followed directly by the same thread's
/// exit, so no two operations ever overlap.
pub open spec fn serialized(t: Seq<HandleEvent>) -> bool
    decreases t.len(),
{
    if t.len() == 0 {
        true
    } else if t.len() == 1 {
        false
    } else {
        match (t[0], t[1]) {
            (HandleEvent::Enter { thread: a }, HandleEvent::Exit { thread: b }) => a == b
                && serialized(t.skip(2)),
            _ => false,
        }
    }
}

/// How many operations are in flight after the first `i` events: entries
/// opened minus exits closed.
pub open spec fn in_flight(t: Seq<HandleEvent>, i: int) -> int
    decreases i,
{
    if i <= 0 {
        0
    } else {
        in_flight(t, i - 1) + match t[i - 1] {
            HandleEvent::Enter { .. } => 1,
            HandleEvent::Exit { .. } => -1,
        }
    }
}

proof fn lemma_in_flight_shift(t: Seq<HandleEvent>, i: int)
    requires
        t.len() >= 2,
        t[0] matches HandleEvent::Enter { .. },
        t[1] matches HandleEvent::Exit { .. },
        2 <= i <= t.len(),
    ensures
        in_flight(t, i) == in_flight(t.skip(2), i - 2),
    decreases i,
{
    if i == 2 {
        assert(in_flight(t, 0) == 0);
        assert(in_flight(t, 1) == 1);
        assert(in_flight(t, 2) == 0);
        assert(in_flight(t.skip(2), 0) == 0);
    } else {
        lemma_in_flight_shift(t, i - 1);
        assert(t.skip(2)[i - 3] == t[i - 1]);
    }
}

/// Law: mutual exclusion as observed. In a trace the checker accepts, at
/// most one operation against the shared handle is in flight at any point,
/// so no two operations from any threads ever overlap.
pub proof fn lemma_serialized_no_overlap(t: Seq<HandleEvent>, i: int)
    requires
        serialized(t),
        0 <= i <= t.len(),
    ensures
        0 <= in_flight(t, i) <= 1,
    decreases t.len(),
{
    if t.len() == 0 {
        assert(in_flight(t, 0) == 0);
    } else {
        assert(t.len() >= 2);
        assert(t[0] matches HandleEvent::Enter { .. });
        if i == 0 {
            assert(in_flight(t, 0) == 0);
        } else if i == 1 {
            assert(in_flight(t, 0) == 0);
            assert(in_flight(t, 1) == 1);
        } else {
            lemma_in_flight_shift(t, i);
            lemma_serialized_no_overlap(t.skip(2), i - 2);
        }
    }
}

/// Decides whether a recorded trace shows serialized access to the handle.
pub fn check_serialized(t: &Vec<HandleEvent>) -> (r: bool)
    ensures
        r == serialized(t@),
{
    let n = t.len();
    let mut i: usize = 0;
    proof {
        assert(t@.skip(0) =~= t@);
    }
    while i < n
        invariant
            i <= n,
            n == t@.len(),
            serialized(t@) <==> serialized(t@.skip(i as int)),
        decreases n - i,
    {
        if i + 1 >= n {
            return false;
        }
        let first = t[i];
        let second = t[i + 1];
        match (first, second) {
            (HandleEvent::Enter { thread: a }, HandleEvent::Exit { thread: b }) => {
                if a != b {
                    return false;
                }
            },
            _ => {
                return false;
            },
        }
        proof {
            assert(t@.skip(i as int).skip(2) =~= t@.skip(i as int + 2));
        }
        i = i + 2;
    }
    true
}

} // verus!
