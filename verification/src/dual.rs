//! Two-bound dispatch: unit-step iteration in whichever direction the order
//! of the bounds implies, forwarded to a forward or a backward cursor.

use vstd::prelude::*;

verus! {

/// Forward unit-step cursor over the half-open interval `[cur, end)`.
pub struct FwdIter {
    pub cur: i64,
    pub end: i64,
}

/// The values a forward cursor will still yield: `cur, cur + 1, ...`
/// strictly below `end`.
pub open spec fn fwd_seq(cur: int, end: int) -> Seq<int> {
    if cur < end {
        Seq::new((end - cur) as nat, |i: int| cur + i)
    } else {
        Seq::<int>::empty()
    }
}

impl FwdIter {
    /// The values this cursor will still yield, in order.
    pub open spec fn remaining(self) -> Seq<int> {
        fwd_seq(self.cur as int, self.end as int)
    }

    /// Advances once: yields the cursor and moves it up, end-of-sequence
    /// once the cursor has reached `end`.
    pub fn next(&mut self) -> (r: Option<i64>)
        ensures
            r is Some <==> old(self).remaining().len() > 0,
            r is Some ==> r == Some(old(self).remaining()[0] as i64) && final(self).remaining()
                == old(self).remaining().drop_first(),
            r is None ==> final(self).remaining() == old(self).remaining(),
    {
        if self.cur < self.end {
            let v = self.cur;
            self.cur = self.cur + 1;
            proof {
                assert(old(self).remaining().drop_first() =~= self.remaining());
            }
            Some(v)
        } else {
            None
        }
    }
}

/// Backward unit-step cursor: yields `cur, cur - 1, ...` down to `low + 1` —
/// the half-open interval `(low, cur]` walked from the top.
pub struct RevIter {
    pub cur: i64,
    pub low: i64,
}

/// The values a backward cursor will still yield: `cur, cur - 1, ...`
/// strictly above `low`.
pub open spec fn rev_seq(cur: int, low: int) -> Seq<int> {
    if low < cur {
        Seq::new((cur - low) as nat, |i: int| cur - i)
    } else {
        Seq::<int>::empty()
    }
}

impl RevIter {
    /// The values this cursor will still yield, in order.
    pub open spec fn remaining(self) -> Seq<int> {
        rev_seq(self.cur as int, self.low as int)
    }

    /// Advances once: yields the cursor and moves it down, end-of-sequence
    /// once the cursor has reached `low`.
    pub fn next(&mut self) -> (r: Option<i64>)
        ensures
            r is Some <==> old(self).remaining().len() > 0,
            r is Some ==> r == Some(old(self).remaining()[0] as i64) && final(self).remaining()
                == old(self).remaining().drop_first(),
            r is None ==> final(self).remaining() == old(self).remaining(),
    {
        if self.low < self.cur {
            let v = self.cur;
            self.cur = self.cur - 1;
            proof {
                assert(old(self).remaining().drop_first() =~= self.remaining());
            }
            Some(v)
        } else {
            None
        }
    }
}

/// Every value `from_bounds(a, b)` will yield, in order: the ascending
/// unit-step interval `[a, b)` when `a <= b`, else that interval's mirror
/// `a, a - 1, ..., b + 1`, which excludes the same endpoint `b`.
pub open spec fn bounds_seq(a: int, b: int) -> Seq<int> {
    if a <= b {
        fwd_seq(a, b)
    } else {
        rev_seq(a, b)
    }
}

/// Tagged dispatch over the two unit-step cursor shapes. The choice is made
/// once, from the order of the two bounds; after that every advance is
/// forwarded to the wrapped cursor, with no arithmetic of its own.
pub enum IterAB {
    IterA(FwdIter),
    IterB(RevIter),
}

impl IterAB {
    /// The values this iterator will still yield, in order.
    pub open spec fn remaining(self) -> Seq<int> {
        match self {
            IterAB::IterA(fwd) => fwd.remaining(),
            IterAB::IterB(rev) => rev.remaining(),
        }
    }

    /// Picks the direction from the order of the bounds: forward over
    /// `[a, b)` when `a <= b`, else backward from `a` down to `b + 1`.
    pub fn from_bounds(a: i64, b: i64) -> (r: IterAB)
        ensures
            r.remaining() == bounds_seq(a as int, b as int),
    {
        if a <= b {
            IterAB::IterA(FwdIter { cur: a, end: b })
        } else {
            IterAB::IterB(RevIter { cur: a, low: b })
        }
    }

    /// Advances the wrapped cursor once and hands its answer through.
    pub fn next(&mut self) -> (r: Option<i64>)
        ensures
            r is Some <==> old(self).remaining().len() > 0,
            r is Some ==> r == Some(old(self).remaining()[0] as i64) && final(self).remaining()
                == old(self).remaining().drop_first(),
            r is None ==> final(self).remaining() == old(self).remaining(),
    {
        match self {
            IterAB::IterA(fwd) => fwd.next(),
            IterAB::IterB(rev) => rev.next(),
        }
    }

    /// Whether the iterator has reached end-of-sequence.
    pub fn is_exhausted(&self) -> (done: bool)
        ensures
            done <==> self.remaining().len() == 0,
    {
        match self {
            IterAB::IterA(fwd) => !(fwd.cur < fwd.end),
            IterAB::IterB(rev) => !(rev.low < rev.cur),
        }
    }

    /// Drains the iterator: advances until end-of-sequence and collects
    /// every yielded value, leaving the iterator exhausted.
    pub fn drain(&mut self) -> (r: Vec<i64>)
        ensures
            final(self).remaining().len() == 0,
            r@.len() == old(self).remaining().len(),
            forall|i: int| 0 <= i < r@.len() ==> r@[i] as int == old(self).remaining()[i],
    {
        let mut out: Vec<i64> = Vec::new();
        while !self.is_exhausted()
            invariant
                out@.len() + self.remaining().len() == old(self).remaining().len(),
                forall|i: int| 0 <= i < out@.len() ==> out@[i] as int == old(self).remaining()[i],
                forall|i: int|
                    0 <= i < self.remaining().len() ==> self.remaining()[i] == old(
                        self,
                    ).remaining()[out@.len() + i],
            decreases self.remaining().len(),
        {
            let v = self.next();
            out.push(v.unwrap());
        }
        out
    }
}

} // verus!
