//! Classification of how one range on a discrete ordered axis relates to
//! another.
//!
//! A range is described by an optional inclusive start, an optional end and a
//! flag saying whether the end itself belongs to the range.  A missing bound
//! means the range is unbounded on that side.  Every inclusive end is first
//! normalized to the equivalent half-open form by taking the successor of the
//! end value, so the classification rules only ever reason about half-open
//! `[start, end)` intervals.
//!
//! The axis is `i64`; it is discrete, so the successor of an end value is
//! `end + 1`.  A continuous axis would have no successor and cannot be
//! described by these ranges.

use vstd::prelude::*;

verus! {

/// Description of how two ranges intersect
#[derive(Debug, Clone, Copy, PartialEq, Eq, Structural)]
pub enum IntersectionDescription {
    /// The self is below the other
    Below,
    /// The self is below but overlapping
    BelowOverlap,
    /// The self is within the other
    Within,
    /// The self is same as the other
    Same,
    /// The self is over the other, the other is within the self
    Over,
    /// The self is above but overlapping
    AboveOverlap,
    /// The self is above the other
    Above,
}

impl IntersectionDescription {
    /// Whether a description reports some intersection: everything except
    /// `Below` and `Above`.
    pub open spec fn spec_is_any(self) -> bool {
        self != IntersectionDescription::Below && self != IntersectionDescription::Above
    }

    /// Whether a description reports full containment of the first range in
    /// the second: `Within` or `Same`.
    pub open spec fn spec_is_within(self) -> bool {
        self == IntersectionDescription::Within || self == IntersectionDescription::Same
    }

    /// Whether a description reports full containment of the second range in
    /// the first: `Over` or `Same`.
    pub open spec fn spec_is_over(self) -> bool {
        self == IntersectionDescription::Over || self == IntersectionDescription::Same
    }

    /// Tests if there is any intersection
    pub fn is_any(&self) -> (r: bool)
        ensures
            r == self.spec_is_any(),
    {
        match self {
            IntersectionDescription::Below => false,
            IntersectionDescription::Above => false,
            _ => true,
        }
    }

    /// Tests if the range is fully within the other
    pub fn is_within(&self) -> (r: bool)
        ensures
            r == self.spec_is_within(),
    {
        match self {
            IntersectionDescription::Within | IntersectionDescription::Same => true,
            _ => false,
        }
    }

    /// Tests if the range is fully over the other
    pub fn is_over(&self) -> (r: bool)
        ensures
            r == self.spec_is_over(),
    {
        match self {
            IntersectionDescription::Over | IntersectionDescription::Same => true,
            _ => false,
        }
    }
}

/// A one-dimensional interval over the discrete ordered `i64` axis.
///
/// A missing `start` means the range is unbounded below; a missing `end`
/// means it is unbounded above.  `end_inclusive` says whether the end value
/// itself belongs to the range; it is only meaningful when `end` is present.
/// The start, when present, is always inclusive.
///
/// Degenerate ranges (an empty or inverted span) are valid values and
/// classify deterministically; nothing rejects them.
#[derive(Debug, Clone, Copy)]
pub struct RangeDescriptor {
    /// The first value of the range, or unbounded below when absent.
    pub start: Option<i64>,
    /// The bound above the range, or unbounded above when absent.
    pub end: Option<i64>,
    /// Whether `end` itself belongs to the range.
    pub end_inclusive: bool,
}

impl RangeDescriptor {
    /// Whether the range has both a start and an end.
    pub open spec fn is_bounded(self) -> bool {
        self.start is Some && self.end is Some
    }

    /// Whether the inclusive end, if there is one, has a successor on the
    /// `i64` axis, so that normalization to half-open form cannot overflow.
    pub open spec fn normalizable(self) -> bool {
        (self.end is Some && self.end_inclusive) ==> self.end->0 < i64::MAX
    }

    /// The exclusive end of the normalized half-open form, as a mathematical
    /// integer.  Meaningful only when `end` is present.
    pub open spec fn norm_end(self) -> int {
        if self.end_inclusive {
            self.end->0 + 1
        } else {
            self.end->0 as int
        }
    }

    /// The start as a mathematical integer.  Meaningful only when `start` is
    /// present.
    pub open spec fn start_int(self) -> int {
        self.start->0 as int
    }

    /// Whether the normalized half-open span holds at least one value.
    /// Meaningful only for bounded ranges.
    pub open spec fn is_nonempty(self) -> bool {
        self.start_int() < self.norm_end()
    }

    /// A bounded half-open range `[start, end)`.
    pub fn bounded(start: i64, end: i64) -> (r: RangeDescriptor)
        ensures
            r == (RangeDescriptor { start: Some(start), end: Some(end), end_inclusive: false }),
    {
        RangeDescriptor { start: Some(start), end: Some(end), end_inclusive: false }
    }

    /// A bounded inclusive range `[start, end]`.
    pub fn bounded_inclusive(start: i64, end: i64) -> (r: RangeDescriptor)
        ensures
            r == (RangeDescriptor { start: Some(start), end: Some(end), end_inclusive: true }),
    {
        RangeDescriptor { start: Some(start), end: Some(end), end_inclusive: true }
    }

    /// A left-bounded range `[start, +infinity)`.
    pub fn from_start(start: i64) -> (r: RangeDescriptor)
        ensures
            r == (RangeDescriptor { start: Some(start), end: None, end_inclusive: false }),
    {
        RangeDescriptor { start: Some(start), end: None, end_inclusive: false }
    }

    /// A right-bounded range `(-infinity, end)`.
    pub fn up_to(end: i64) -> (r: RangeDescriptor)
        ensures
            r == (RangeDescriptor { start: None, end: Some(end), end_inclusive: false }),
    {
        RangeDescriptor { start: None, end: Some(end), end_inclusive: false }
    }

    /// A right-bounded range `(-infinity, end]`.
    pub fn up_to_inclusive(end: i64) -> (r: RangeDescriptor)
        ensures
            r == (RangeDescriptor { start: None, end: Some(end), end_inclusive: true }),
    {
        RangeDescriptor { start: None, end: Some(end), end_inclusive: true }
    }

    /// The fully unbounded range `(-infinity, +infinity)`.
    pub fn unbounded() -> (r: RangeDescriptor)
        ensures
            r == (RangeDescriptor { start: None, end: None, end_inclusive: false }),
    {
        RangeDescriptor { start: None, end: None, end_inclusive: false }
    }
}

/// Classification of the half-open range `[s1, e1)` against the half-open
/// range `[s2, e2)`.  The end-equality test comes first because it settles
/// `Same`, `Over` and `Within` before the general ordering logic.
pub open spec fn classify_bounded(s1: int, e1: int, s2: int, e2: int) -> IntersectionDescription {
    if e1 == e2 {
        if s1 < s2 {
            IntersectionDescription::Over
        } else if s1 > s2 {
            IntersectionDescription::Within
        } else {
            IntersectionDescription::Same
        }
    } else if e1 < e2 {
        if e1 <= s2 {
            IntersectionDescription::Below
        } else if s1 < s2 {
            IntersectionDescription::BelowOverlap
        } else {
            IntersectionDescription::Within
        }
    } else if s1 < e2 {
        if s1 <= s2 {
            IntersectionDescription::Over
        } else {
            IntersectionDescription::AboveOverlap
        }
    } else {
        IntersectionDescription::Above
    }
}

/// Classification of the half-open range `[s1, e1)` against the left-bounded
/// range `[s2, +infinity)`.
pub open spec fn classify_from(s1: int, e1: int, s2: int) -> IntersectionDescription {
    if e1 <= s2 {
        IntersectionDescription::Below
    } else if s1 < s2 {
        IntersectionDescription::BelowOverlap
    } else {
        IntersectionDescription::Within
    }
}

/// Classification of the half-open range `[s1, e1)` against the
/// right-bounded range `(-infinity, e2)`.
pub open spec fn classify_to(s1: int, e1: int, e2: int) -> IntersectionDescription {
    if s1 >= e2 {
        IntersectionDescription::Above
    } else if e1 > e2 {
        IntersectionDescription::AboveOverlap
    } else {
        IntersectionDescription::Within
    }
}

/// Classification of a bounded range `a` against a range `b` of any shape,
/// after both ends are normalized to half-open form.
pub open spec fn spec_classify(a: RangeDescriptor, b: RangeDescriptor) -> IntersectionDescription
    recommends
        a.is_bounded(),
{
    if b.start is Some && b.end is Some {
        classify_bounded(a.start_int(), a.norm_end(), b.start_int(), b.norm_end())
    } else if b.start is Some {
        classify_from(a.start_int(), a.norm_end(), b.start_int())
    } else if b.end is Some {
        classify_to(a.start_int(), a.norm_end(), b.norm_end())
    } else {
        IntersectionDescription::Within
    }
}

/// Whether range `b` fully contains the normalized span of the bounded range
/// `a`, by direct boundary comparison: `b`'s start, when present, does not
/// exceed `a`'s, and `a`'s normalized end does not exceed `b`'s.
pub open spec fn span_contained_in(a: RangeDescriptor, b: RangeDescriptor) -> bool
    recommends
        a.is_bounded(),
{
    &&& (b.start is Some ==> b.start_int() <= a.start_int())
    &&& (b.end is Some ==> a.norm_end() <= b.norm_end())
}

/// Every bounded range, degenerate or not, classifies against itself as
/// `Same`.
pub proof fn lemma_classify_self_is_same(a: RangeDescriptor)
    requires
        a.is_bounded(),
    ensures
        spec_classify(a, a) == IntersectionDescription::Same,
{
}

/// For bounded ranges the `Same` verdict is symmetric: the pair `(a, b)`
/// classifies as `Same` exactly when the pair `(b, a)` does.
pub proof fn lemma_same_symmetric(a: RangeDescriptor, b: RangeDescriptor)
    requires
        a.is_bounded(),
        b.is_bounded(),
    ensures
        (spec_classify(a, b) == IntersectionDescription::Same) <==> (spec_classify(b, a)
            == IntersectionDescription::Same),
{
}

/// For a bounded, nonempty range `a`, the classification reports `Within` or
/// `Same` exactly when `b` fully contains `a`'s normalized span by direct
/// boundary comparison.
///
/// The nonemptiness premise is needed: a degenerate empty range sitting on
/// `b`'s boundary, such as `[3, 3)` against `[3, 10)`, classifies as `Below`
/// even though the boundary comparison holds.
pub proof fn lemma_is_within_iff_contained(a: RangeDescriptor, b: RangeDescriptor)
    requires
        a.is_bounded(),
        a.is_nonempty(),
    ensures
        spec_classify(a, b).spec_is_within() <==> span_contained_in(a, b),
{
}

/// Classification is total and unambiguous: every range pair yields exactly
/// one of the seven variants.
pub proof fn lemma_classification_exclusive(a: RangeDescriptor, b: RangeDescriptor)
    requires
        a.is_bounded(),
    ensures
        ({
            let r = spec_classify(a, b);
            (if r == IntersectionDescription::Below { 1int } else { 0 }) + (if r
                == IntersectionDescription::BelowOverlap { 1int } else { 0 }) + (if r
                == IntersectionDescription::Within { 1int } else { 0 }) + (if r
                == IntersectionDescription::Same { 1int } else { 0 }) + (if r
                == IntersectionDescription::Over { 1int } else { 0 }) + (if r
                == IntersectionDescription::AboveOverlap { 1int } else { 0 }) + (if r
                == IntersectionDescription::Above { 1int } else { 0 }) == 1
        }),
{
    let r = spec_classify(a, b);
    match r {
        IntersectionDescription::Below => {},
        IntersectionDescription::BelowOverlap => {},
        IntersectionDescription::Within => {},
        IntersectionDescription::Same => {},
        IntersectionDescription::Over => {},
        IntersectionDescription::AboveOverlap => {},
        IntersectionDescription::Above => {},
    }
}

pub trait Intersect {
    /// What a range pair must satisfy before it can be classified.
    spec fn intersect_req(&self, other: &Self) -> bool;

    /// The classification the implementation promises to return.
    spec fn intersection_spec(&self, other: &Self) -> IntersectionDescription;

    /// Describes the intersection between two ranges.
    fn describe_intersection(&self, other: &Self) -> (r: IntersectionDescription)
        requires
            self.intersect_req(other),
        ensures
            r == self.intersection_spec(other),
    ;
}

impl Intersect for RangeDescriptor {
    /// The first range must be bounded, and any inclusive end must have a
    /// successor on the axis.
    open spec fn intersect_req(&self, other: &Self) -> bool {
        self.is_bounded() && self.normalizable() && other.normalizable()
    }

    open spec fn intersection_spec(&self, other: &Self) -> IntersectionDescription {
        spec_classify(*self, *other)
    }

    fn describe_intersection(&self, other: &Self) -> (r: IntersectionDescription) {
        let s1 = match self.start {
            Some(s) => s,
            None => unreached(),
        };
        let raw_e1 = match self.end {
            Some(e) => e,
            None => unreached(),
        };
        let e1: i64 = if self.end_inclusive {
            raw_e1 + 1
        } else {
            raw_e1
        };
        match (other.start, other.end) {
            (Some(s2), Some(raw_e2)) => {
                let e2: i64 = if other.end_inclusive {
                    raw_e2 + 1
                } else {
                    raw_e2
                };
                if e1 == e2 {
                    if s1 < s2 {
                        IntersectionDescription::Over
                    } else if s1 > s2 {
                        IntersectionDescription::Within
                    } else {
                        IntersectionDescription::Same
                    }
                } else if e1 < e2 {
                    if e1 <= s2 {
                        IntersectionDescription::Below
                    } else if s1 < s2 {
                        IntersectionDescription::BelowOverlap
                    } else {
                        IntersectionDescription::Within
                    }
                } else if s1 < e2 {
                    if s1 <= s2 {
                        IntersectionDescription::Over
                    } else {
                        IntersectionDescription::AboveOverlap
                    }
                } else {
                    IntersectionDescription::Above
                }
            },
            (Some(s2), None) => {
                if e1 <= s2 {
                    IntersectionDescription::Below
                } else if s1 < s2 {
                    IntersectionDescription::BelowOverlap
                } else {
                    IntersectionDescription::Within
                }
            },
            (None, Some(raw_e2)) => {
                let e2: i64 = if other.end_inclusive {
                    raw_e2 + 1
                } else {
                    raw_e2
                };
                if s1 >= e2 {
                    IntersectionDescription::Above
                } else if e1 > e2 {
                    IntersectionDescription::AboveOverlap
                } else {
                    IntersectionDescription::Within
                }
            },
            (None, None) => IntersectionDescription::Within,
        }
    }
}

} // verus!
