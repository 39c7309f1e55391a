//! The retrieval engine: a bounded-retry machine over store attempts.
//!
//! The store is queried by the caller; each answer is handed to
//! `Retrieval::observe`, which says whether to ask again, or what the
//! retrieval came to.

use vstd::prelude::*;
use crate::failure::Failure;

verus! {

/// How many store attempts one retrieval may make.
pub const MAX_ATTEMPTS: u8 = 3;

/// What one store attempt gave.
#[derive(Clone, Debug)]
pub enum Attempt {
    /// A row with this quote text.
    Found(String),
    /// No row.
    Empty,
    /// The store reported a hard fault.
    Fault,
}

/// What a retrieval does after an attempt.
#[derive(Clone, Debug)]
pub enum Next {
    /// Ask the store again.
    Retry,
    /// The retrieval is over with this quote text.
    Got(String),
    /// The retrieval is over with this failure.
    Failed(Failure),
}

/// The step taken when attempt number `tries + 1` gives `a`: a row ends
/// the retrieval, a fault ends it at once, and an empty answer is retried
/// until the attempts run out.
pub open spec fn next_after(tries: nat, a: Attempt) -> Next {
    match a {
        Attempt::Found(q) => Next::Got(q),
        Attempt::Fault => Next::Failed(Failure::StoreUnavailable),
        Attempt::Empty => if tries + 1 >= MAX_ATTEMPTS {
            Next::Failed(Failure::NoResult)
        } else {
            Next::Retry
        },
    }
}

/// Runs a retrieval with `tries` attempts made over the answers `outs`, in
/// order: the step it stops with (`Retry` if the answers run out first) and
/// how many answers it used.
pub open spec fn run(tries: nat, outs: Seq<Attempt>) -> (Next, nat)
    decreases outs.len(),
{
    if outs.len() == 0 {
        (Next::Retry, 0)
    } else {
        let n = next_after(tries, outs[0]);
        if n is Retry {
            let (m, k) = run(tries + 1, outs.drop_first());
            (m, k + 1)
        } else {
            (n, 1)
        }
    }
}

/// The state of one retrieval: how many attempts it has made.
pub struct Retrieval {
    tries: u8,
}

impl Retrieval {
    pub closed spec fn attempts(&self) -> nat {
        self.tries as nat
    }

    /// The retrieval may still make an attempt.
    pub open spec fn wf(&self) -> bool {
        self.attempts() < MAX_ATTEMPTS
    }

    /// A retrieval that has made no attempt.
    pub fn new() -> (r: Retrieval)
        ensures
            r.attempts() == 0,
            r.wf(),
    {
        Retrieval { tries: 0 }
    }

    /// How many attempts were made.
    pub fn attempts_made(&self) -> (r: u8)
        ensures
            r as nat == self.attempts(),
    {
        self.tries
    }

    /// Takes in the answer to the next attempt.
    pub fn observe(&mut self, a: Attempt) -> (r: Next)
        requires
            old(self).wf(),
        ensures
            final(self).attempts() == old(self).attempts() + 1,
            r == next_after(old(self).attempts(), a),
            r is Retry ==> final(self).wf(),
    {
        self.tries = self.tries + 1;
        match a {
            Attempt::Found(q) => Next::Got(q),
            Attempt::Fault => Next::Failed(Failure::StoreUnavailable),
            Attempt::Empty => if self.tries >= MAX_ATTEMPTS {
                Next::Failed(Failure::NoResult)
            } else {
                Next::Retry
            },
        }
    }
}

/// When every answer is empty, a fresh retrieval keeps asking through the
/// first two attempts, and fails with `NoResult` on the third: after exactly
/// three attempts, never fewer.
pub proof fn lemma_empty_store_fails_after_three(outs: Seq<Attempt>)
    requires
        outs.len() >= MAX_ATTEMPTS,
        forall|i: int| 0 <= i < outs.len() ==> outs[i] is Empty,
    ensures
        run(0, outs) == (Next::Failed(Failure::NoResult), 3nat),
        forall|k: int| 0 <= k < MAX_ATTEMPTS ==> #[trigger] run(0, outs.take(k)) == (Next::Retry, k as nat),
{
    let o1 = outs.drop_first();
    let o2 = o1.drop_first();
    assert(o1[0] == outs[1]);
    assert(o2[0] == outs[2]);
    assert(run(2, o2) == (Next::Failed(Failure::NoResult), 1nat));
    assert(run(1, o1) == (Next::Failed(Failure::NoResult), 2nat));
    assert forall|k: int| 0 <= k < MAX_ATTEMPTS implies #[trigger] run(0, outs.take(k)) == (Next::Retry, k as nat) by {
        let t = outs.take(k);
        if k == 0 {
            assert(t.len() == 0);
        } else if k == 1 {
            assert(t[0] == outs[0]);
            assert(t.drop_first().len() == 0);
            assert(run(1, t.drop_first()) == (Next::Retry, 0nat));
        } else {
            assert(t[0] == outs[0]);
            assert(t.drop_first()[0] == outs[1]);
            assert(t.drop_first().drop_first().len() == 0);
            assert(run(2, t.drop_first().drop_first()) == (Next::Retry, 0nat));
            assert(run(1, t.drop_first()) == (Next::Retry, 1nat));
        }
    }
}

} // verus!
