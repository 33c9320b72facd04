//! Union of two arcs on a ring of `u128::MAX + 1` positions.
//!
//! An arc is an ordered pair of points `(start, end)`, traversed upward from
//! `start` and wrapping past position 0 when `start > end`. Equal endpoints
//! denote the empty arc; a pair with `end == u128::MAX - start` denotes the
//! whole ring, whose canonical form is `(0, u128::MAX)`.
use vstd::prelude::*;

verus! {

/// Largest position on the ring.
pub open spec fn max_point() -> int {
    u128::MAX as int
}

/// A directed arc on the ring, from `.0` up to `.1`.
#[derive(Clone, Debug, PartialEq, Eq, Structural)]
pub struct Interval(pub u128, pub u128);

/// The canonical arc that covers the whole ring.
pub open spec fn full_ring() -> Interval {
    Interval(0, u128::MAX)
}

/// The larger of two points.
pub open spec fn max_of(x: u128, y: u128) -> u128 {
    if x >= y { x } else { y }
}

/// The smaller of two points.
pub open spec fn min_of(x: u128, y: u128) -> u128 {
    if x <= y { x } else { y }
}

/// The arc that joins a wrapping arc `through` with a non-wrapping arc
/// `plain`, where that join is taken to be one arc.
///
/// `plain` must start within the head `[0, through.1]` of `through`; if it
/// also reaches the tail `[through.0, max]`, the two cover the whole ring.
pub open spec fn merge_of(through: Interval, plain: Interval) -> Option<Interval> {
    if plain.0 <= through.1 {
        if plain.1 >= through.0 {
            Some(full_ring())
        } else {
            Some(Interval(through.0, max_of(through.1, plain.1)))
        }
    } else {
        None
    }
}

/// The union of arcs `a` and `b`, by the first rule that applies: an empty
/// operand yields the other one; a whole-ring operand yields the canonical
/// whole ring; two proper arcs are joined by their shape; anything else has
/// no union.
pub open spec fn union_of(a: Interval, b: Interval) -> Option<Interval> {
    if a.is_void() {
        Some(b)
    } else if b.is_void() {
        Some(a)
    } else if a.is_whole() || b.is_whole() {
        Some(full_ring())
    } else if a.is_proper() && b.is_proper() {
        if a.is_linear() && b.is_linear() {
            if a.0 <= b.0 {
                if a.1 >= b.0 {
                    Some(Interval(a.0, max_of(a.1, b.1)))
                } else {
                    None
                }
            } else if b.1 >= a.0 {
                Some(Interval(b.0, max_of(a.1, b.1)))
            } else {
                None
            }
        } else if a.wraps() && b.is_linear() {
            merge_of(a, b)
        } else if a.is_linear() && b.wraps() {
            merge_of(b, a)
        } else {
            Some(Interval(min_of(a.0, b.0), max_of(a.1, b.1)))
        }
    } else {
        None
    }
}

impl Interval {
    /// The arc does not cross position 0.
    pub open spec fn is_linear(self) -> bool {
        self.0 < self.1
    }

    /// The arc crosses position 0.
    pub open spec fn wraps(self) -> bool {
        self.0 > self.1
    }

    /// The arc has length zero.
    pub open spec fn is_void(self) -> bool {
        self.0 == self.1
    }

    /// The arc is read as the whole ring. This holds of every pair with
    /// `end == u128::MAX - start`, not only of the canonical `(0, u128::MAX)`.
    pub open spec fn is_whole(self) -> bool {
        self.1 == max_point() - self.0
    }

    /// The arc is neither empty nor the whole ring.
    pub open spec fn is_proper(self) -> bool {
        !self.is_void() && !self.is_whole()
    }

    /// Point `p` lies on the arc, as its classification reads it.
    pub open spec fn covers(self, p: int) -> bool {
        &&& 0 <= p <= max_point()
        &&& if self.is_void() {
            false
        } else if self.is_whole() {
            true
        } else if self.is_linear() {
            self.0 <= p <= self.1
        } else {
            p >= self.0 || p <= self.1
        }
    }

    fn not_through_starting_point(&self) -> (r: bool)
        ensures
            r == self.is_linear(),
    {
        self.0 < self.1
    }

    fn through_starting_point(&self) -> (r: bool)
        ensures
            r == self.wraps(),
    {
        self.0 > self.1
    }

    fn is_empty(&self) -> (r: bool)
        ensures
            r == self.is_void(),
    {
        self.0 == self.1
    }

    fn is_full(&self) -> (r: bool)
        ensures
            r == self.is_whole(),
    {
        self.1 == u128::MAX - self.0
    }

    fn is_interval(&self) -> (r: bool)
        ensures
            r == self.is_proper(),
    {
        self.0 != self.1 && self.1 != u128::MAX - self.0
    }

    /// The union of `self` and `other`, when it is one arc.
    pub fn union(&self, other: &Interval) -> (r: Option<Interval>)
        ensures
            r == union_of(*self, *other),
    {
        if self.is_empty() {
            Some(Interval(other.0, other.1))
        } else if other.is_empty() {
            Some(Interval(self.0, self.1))
        } else if self.is_full() || other.is_full() {
            Some(Interval(0, u128::MAX))
        } else if self.is_interval() && other.is_interval() {
            if self.not_through_starting_point() && other.not_through_starting_point() {
                if self.0 <= other.0 {
                    if self.1 >= other.0 {
                        Some(Interval(self.0, self.1.max(other.1)))
                    } else {
                        None
                    }
                } else {
                    if other.1 >= self.0 {
                        Some(Interval(other.0, self.1.max(other.1)))
                    } else {
                        None
                    }
                }
            } else if self.through_starting_point() && other.not_through_starting_point() {
                Self::union_through_starting_point_not_through_starting_point(self, other)
            } else if self.not_through_starting_point() && other.through_starting_point() {
                Self::union_through_starting_point_not_through_starting_point(other, self)
            } else {
                Some(Interval(self.0.min(other.0), self.1.max(other.1)))
            }
        } else {
            None
        }
    }

    /// Joins a wrapping arc with a non-wrapping one (see `merge_of`).
    pub fn union_through_starting_point_not_through_starting_point(
        through_starting_point: &Interval,
        not_through_starting_point: &Interval,
    ) -> (r: Option<Interval>)
        ensures
            r == merge_of(*through_starting_point, *not_through_starting_point),
    {
        if not_through_starting_point.0 <= through_starting_point.1 {
            if not_through_starting_point.1 >= through_starting_point.0 {
                Some(Interval(0, u128::MAX))
            } else {
                Some(
                    Interval(
                        through_starting_point.0,
                        through_starting_point.1.max(not_through_starting_point.1),
                    ),
                )
            }
        } else {
            None
        }
    }
}

/// The union of each pair of arcs, in order.
pub fn union_list(intervals: &[(Interval, Interval)]) -> (r: Vec<Option<Interval>>)
    ensures
        r@.len() == intervals@.len(),
        forall|i: int|
            0 <= i < intervals@.len() ==> #[trigger] r@[i] == union_of(
                intervals@[i].0,
                intervals@[i].1,
            ),
{
    let mut out: Vec<Option<Interval>> = Vec::new();
    let mut i: usize = 0;
    while i < intervals.len()
        invariant
            i <= intervals@.len(),
            out@.len() == i,
            forall|j: int|
                0 <= j < i ==> #[trigger] out@[j] == union_of(intervals@[j].0, intervals@[j].1),
        decreases intervals@.len() - i,
    {
        let pair = &intervals[i];
        out.push(pair.0.union(&pair.1));
        i = i + 1;
    }
    out
}

/// An empty arc is a left identity of union, and a right identity for every
/// arc other than a different empty arc (the left operand wins when both
/// are empty).
pub proof fn lemma_union_empty_identity(e: Interval, x: Interval)
    requires
        e.is_void(),
    ensures
        union_of(e, x) == Some(x),
        !x.is_void() || x == e ==> union_of(x, e) == Some(x),
{
}

/// The canonical whole ring absorbs any arc, on either side.
pub proof fn lemma_union_full_absorbs(x: Interval)
    ensures
        union_of(full_ring(), x) == Some(full_ring()),
        union_of(x, full_ring()) == Some(full_ring()),
{
}

/// Whether two arcs have a union does not depend on their order, and when
/// they do, both orders give arcs that cover the same points.
pub proof fn lemma_union_commutes(a: Interval, b: Interval)
    ensures
        union_of(a, b).is_some() == union_of(b, a).is_some(),
        union_of(a, b).is_some() ==> forall|p: int|
            #[trigger] union_of(a, b).unwrap().covers(p) == union_of(b, a).unwrap().covers(p),
{
    assert(union_of(a, b) == union_of(b, a) || (a.is_void() && b.is_void()));
}

/// Union is a function of its operands: equal operands give equal results.
pub proof fn lemma_union_deterministic(a1: Interval, b1: Interval, a2: Interval, b2: Interval)
    requires
        a1 == a2,
        b1 == b2,
    ensures
        union_of(a1, b1) == union_of(a2, b2),
{
}

} // verus!
