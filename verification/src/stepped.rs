//! The stepped range engine: direction classification at construction and
//! checked cursor advancement, with the value sequence as its model.

use vstd::prelude::*;

verus! {

/// Iteration state of a stepped range: still climbing, still descending, or
/// exhausted.
///
/// `Stop` is terminal: once a range enters it, no advance ever leaves it, so
/// an exhausted range keeps reporting end-of-sequence.
#[derive(Clone, Copy)]
pub enum Direction {
    Plus,
    Minus,
    Stop,
}

/// A stepped numeric range over `i64`: a cursor `now` that moves by `step`
/// toward the bound `end` until it would meet or pass it.
///
/// The direction of travel is classified once, in [`ERange::new`], and never
/// recomputed; the only later transition is the one-way move to
/// [`Direction::Stop`]. Cursor arithmetic is checked: a sum that would leave
/// `i64` can only arise past the bound, where the range stops anyway, so the
/// overflow is absorbed by the stop transition and never observable.
pub struct ERange {
    pub end: i64,
    pub step: i64,
    pub now: i64,
    pub direction: Direction,
}

/// The ascending value sequence `now, now + step, ...` of an active climbing
/// range: every value below `end`, empty unless `now < end` with a positive
/// step.
pub open spec fn asc_seq(now: int, end: int, step: int) -> Seq<int>
    decreases end - now,
{
    if !(now < end && 0 < step) {
        Seq::<int>::empty()
    } else if now + step < end {
        seq![now] + asc_seq(now + step, end, step)
    } else {
        seq![now]
    }
}

/// The descending value sequence `now, now + step, ...` of an active
/// descending range: every value above `end`, empty unless `end < now` with a
/// negative step.
pub open spec fn desc_seq(now: int, end: int, step: int) -> Seq<int>
    decreases now - end,
{
    if !(end < now && step < 0) {
        Seq::<int>::empty()
    } else if end < now + step {
        seq![now] + desc_seq(now + step, end, step)
    } else {
        seq![now]
    }
}

/// The direction chosen at construction: ascending iff the bounds are ordered
/// upward, the first advance stays below `end`, and the step really moves up;
/// descending symmetrically; `Stop` for every degenerate combination (equal
/// bounds, a zero step, a step against the bounds' order, or a first advance
/// that would already overshoot).
pub open spec fn classify(start: int, end: int, step: int) -> Direction {
    if start <= end && start + step < end && 0 < step {
        Direction::Plus
    } else if end <= start && end < start + step && step < 0 {
        Direction::Minus
    } else {
        Direction::Stop
    }
}

/// Every value `new(start, end, step)` will yield, in order.
pub open spec fn range_seq(start: int, end: int, step: int) -> Seq<int> {
    match classify(start, end, step) {
        Direction::Plus => asc_seq(start, end, step),
        Direction::Minus => desc_seq(start, end, step),
        Direction::Stop => Seq::<int>::empty(),
    }
}

/// The implicit unit step derived from two bounds: `+1` when they are ordered
/// strictly upward, `-1` otherwise.
pub open spec fn unit_step(start: int, end: int) -> int {
    if start < end {
        1
    } else {
        -1
    }
}

/// Every value `from_interval(start, end)` will yield, in order.
pub open spec fn interval_seq(start: int, end: int) -> Seq<int> {
    range_seq(start, end, unit_step(start, end))
}

/// Whether `a + b < c` holds over the unbounded integers. When `checked_add`
/// reports an overflow, the sign of `b` tells which side of `i64` the sum
/// left, which settles the comparison.
fn sum_below(a: i64, b: i64, c: i64) -> (r: bool)
    ensures
        r <==> a + b < c,
{
    match a.checked_add(b) {
        Some(v) => v < c,
        None => b < 0,
    }
}

/// Whether `c < a + b` holds over the unbounded integers, by the same
/// overflow reasoning as [`sum_below`].
fn sum_above(a: i64, b: i64, c: i64) -> (r: bool)
    ensures
        r <==> c < a + b,
{
    match a.checked_add(b) {
        Some(v) => c < v,
        None => 0 < b,
    }
}

impl ERange {
    /// Well-formedness: an active direction comes with a step of the matching
    /// sign and a cursor strictly on the start side of the bound.
    /// [`ERange::new`] establishes this and [`ERange::next`] preserves it.
    pub open spec fn wf(self) -> bool {
        match self.direction {
            Direction::Plus => 0 < self.step && self.now < self.end,
            Direction::Minus => self.step < 0 && self.end < self.now,
            Direction::Stop => true,
        }
    }

    /// The values this range will still yield, in order.
    pub open spec fn remaining(self) -> Seq<int> {
        match self.direction {
            Direction::Plus => asc_seq(self.now as int, self.end as int, self.step as int),
            Direction::Minus => desc_seq(self.now as int, self.end as int, self.step as int),
            Direction::Stop => Seq::<int>::empty(),
        }
    }

    /// Builds a range from a start, a bound and a step. No input combination
    /// is rejected: a degenerate one is classified as stopped and yields the
    /// empty sequence.
    pub fn new(start: i64, end: i64, step: i64) -> (r: ERange)
        ensures
            r.now == start,
            r.end == end,
            r.step == step,
            r.direction == classify(start as int, end as int, step as int),
            r.wf(),
            r.remaining() == range_seq(start as int, end as int, step as int),
    {
        let direction = if start <= end && sum_below(start, step, end) && 0 < step {
            Direction::Plus
        } else if end <= start && sum_above(start, step, end) && step < 0 {
            Direction::Minus
        } else {
            Direction::Stop
        };
        ERange { end, step, now: start, direction }
    }

    /// Builds a range from a half-open interval and an explicit step;
    /// equivalent to [`ERange::new`] on the interval's two endpoints.
    pub fn from_range(range: core::ops::Range<i64>, step: i64) -> (r: ERange)
        ensures
            r.now == range.start,
            r.end == range.end,
            r.step == step,
            r.wf(),
            r.remaining() == range_seq(range.start as int, range.end as int, step as int),
    {
        ERange::new(range.start, range.end, step)
    }

    /// Builds a range from two bounds alone, deriving the unit step from
    /// their order: `+1` when `start < end`, else `-1`. Bounds ordered
    /// downward therefore give a descending sequence, not an empty one.
    pub fn from_interval(start: i64, end: i64) -> (r: ERange)
        ensures
            r.now == start,
            r.end == end,
            r.step == unit_step(start as int, end as int),
            r.wf(),
            r.remaining() == interval_seq(start as int, end as int),
    {
        if start < end {
            ERange::new(start, end, 1)
        } else {
            ERange::new(start, end, -1)
        }
    }

    /// Advances the cursor once. Yields the value the cursor held before the
    /// advance — also on the advance that triggers the stop transition — and
    /// end-of-sequence forever once the range is exhausted.
    pub fn next(&mut self) -> (r: Option<i64>)
        requires
            old(self).wf(),
        ensures
            final(self).wf(),
            r is Some <==> old(self).remaining().len() > 0,
            r is Some ==> r == Some(old(self).remaining()[0] as i64) && final(self).remaining()
                == old(self).remaining().drop_first(),
            r is None ==> final(self).remaining() == old(self).remaining(),
    {
        match self.direction {
            Direction::Stop => None,
            Direction::Plus => {
                let v = self.now;
                match self.now.checked_add(self.step) {
                    Some(n) => {
                        self.now = n;
                        if n >= self.end {
                            self.direction = Direction::Stop;
                        }
                    },
                    None => {
                        self.direction = Direction::Stop;
                    },
                }
                proof {
                    assert(old(self).remaining().drop_first() =~= self.remaining());
                }
                Some(v)
            },
            Direction::Minus => {
                let v = self.now;
                match self.now.checked_add(self.step) {
                    Some(n) => {
                        self.now = n;
                        if n <= self.end {
                            self.direction = Direction::Stop;
                        }
                    },
                    None => {
                        self.direction = Direction::Stop;
                    },
                }
                proof {
                    assert(old(self).remaining().drop_first() =~= self.remaining());
                }
                Some(v)
            },
        }
    }

    /// Whether the range has reached end-of-sequence.
    pub fn is_exhausted(&self) -> (done: bool)
        requires
            self.wf(),
        ensures
            done <==> self.remaining().len() == 0,
    {
        match self.direction {
            Direction::Stop => true,
            _ => false,
        }
    }

    /// Drains the range: advances until end-of-sequence and collects every
    /// yielded value, leaving the range exhausted.
    pub fn drain(&mut self) -> (r: Vec<i64>)
        requires
            old(self).wf(),
        ensures
            final(self).wf(),
            final(self).remaining().len() == 0,
            r@.len() == old(self).remaining().len(),
            forall|i: int| 0 <= i < r@.len() ==> r@[i] as int == old(self).remaining()[i],
    {
        let mut out: Vec<i64> = Vec::new();
        while !self.is_exhausted()
            invariant
                self.wf(),
                out@.len() + self.remaining().len() == old(self).remaining().len(),
                forall|i: int| 0 <= i < out@.len() ==> out@[i] as int == old(self).remaining()[i],
                forall|i: int|
                    0 <= i < self.remaining().len() ==> self.remaining()[i] == old(
                        self,
                    ).remaining()[out@.len() + i],
            decreases self.remaining().len(),
        {
            let v = self.next();
            out.push(v.unwrap());
        }
        out
    }
}

proof fn lemma_asc_unit(now: int, end: int)
    requires
        now < end,
    ensures
        asc_seq(now, end, 1) =~= Seq::new((end - now) as nat, |i: int| now + i),
    decreases end - now,
{
    if now + 1 < end {
        lemma_asc_unit(now + 1, end);
    }
}

proof fn lemma_desc_unit(now: int, end: int)
    requires
        end < now,
    ensures
        desc_seq(now, end, -1) =~= Seq::new((now - end) as nat, |i: int| now - i),
    decreases now - end,
{
    if end < now - 1 {
        lemma_desc_unit(now - 1, end);
    }
}

/// Law: for bounds ordered upward, `from_interval` yields exactly the
/// ascending unit-step sequence `start, start + 1, ...` strictly below
/// `end`.
///
/// The adjacent case `end == start + 1` is excluded: there the classification
/// finds the first advance already overshooting (`start + 1 < end` fails) and
/// stops the range at construction, so it yields the empty sequence.
pub proof fn lemma_interval_ascending(start: int, end: int)
    requires
        start + 1 < end,
    ensures
        interval_seq(start, end).len() == end - start,
        forall|i: int| 0 <= i < end - start ==> interval_seq(start, end)[i] == start + i,
{
    lemma_asc_unit(start, end);
}

/// Law: for bounds ordered downward, `from_interval` yields exactly the
/// descending unit-step sequence `start, start - 1, ...` strictly above
/// `end` — not the empty sequence.
///
/// The adjacent case `start == end + 1` is excluded: there the classification
/// finds the first advance already overshooting (`end < start - 1` fails) and
/// stops the range at construction, so it yields the empty sequence.
pub proof fn lemma_interval_descending(start: int, end: int)
    requires
        end + 1 < start,
    ensures
        interval_seq(start, end).len() == start - end,
        forall|i: int| 0 <= i < start - end ==> interval_seq(start, end)[i] == start - i,
{
    lemma_desc_unit(start, end);
}

/// Law: equal bounds yield the empty sequence for every step — a range built
/// by `new(x, x, step)` is classified as stopped at construction.
pub proof fn lemma_equal_bounds_empty(x: int, step: int)
    ensures
        classify(x, x, step) == Direction::Stop,
        range_seq(x, x, step) == Seq::<int>::empty(),
{
}

/// Law: iteration is deterministic. The value sequence is a function of the
/// range's state alone, so two ranges in identical states — in particular,
/// two ranges built with identical arguments, whose states `new`'s contract
/// pins field by field — yield identical sequences when drained.
pub proof fn lemma_deterministic(a: ERange, b: ERange)
    requires
        a.now == b.now,
        a.end == b.end,
        a.step == b.step,
        a.direction == b.direction,
    ensures
        a.remaining() == b.remaining(),
{
}

} // verus!
