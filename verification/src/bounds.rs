//! Bound primitives limiting how much data an election pulls per step.
//!
//! `CountBound` caps a number of elements, `SizeBound` caps an encoded size.
//! A `DataProviderBounds` pairs an optional bound of each kind, where `None`
//! means "no limit on that dimension", and `ElectionBounds` carries one such
//! pair for the voters and one for the targets of an election.

use vstd::prelude::*;

verus! {

/// Count bound of data provider bounds.
#[derive(Clone, Copy, Debug, PartialEq, Eq, Structural)]
pub struct CountBound(pub u32);

impl CountBound {
    /// The zero count.
    pub fn zero() -> (r: Self)
        ensures
            r.0 == 0,
    {
        CountBound(0)
    }

    /// True iff the count is zero.
    pub fn is_zero(&self) -> (r: bool)
        ensures
            r == (self.0 == 0),
    {
        self.0 == 0
    }

    /// Adds two counts, saturating at the largest representable count.
    pub fn saturating_add(self, rhs: Self) -> (r: Self)
        ensures
            r.0 == spec_saturating_add_u32(self.0, rhs.0),
    {
        CountBound(u32_saturating_add(self.0, rhs.0))
    }
}

impl From<u32> for CountBound {
    fn from(value: u32) -> (r: Self) {
        CountBound(value)
    }
}

impl vstd::std_specs::convert::FromSpecImpl<u32> for CountBound {
    open spec fn obeys_from_spec() -> bool {
        true
    }

    open spec fn from_spec(value: u32) -> Self {
        CountBound(value)
    }
}

/// Size bound of data provider bounds.
#[derive(Clone, Copy, Debug, PartialEq, Eq, Structural)]
pub struct SizeBound(pub u32);

impl SizeBound {
    /// The zero size.
    pub fn zero() -> (r: Self)
        ensures
            r.0 == 0,
    {
        SizeBound(0)
    }

    /// True iff the size is zero.
    pub fn is_zero(&self) -> (r: bool)
        ensures
            r == (self.0 == 0),
    {
        self.0 == 0
    }

    /// Adds two sizes, saturating at the largest representable size.
    pub fn saturating_add(self, rhs: Self) -> (r: Self)
        ensures
            r.0 == spec_saturating_add_u32(self.0, rhs.0),
    {
        SizeBound(u32_saturating_add(self.0, rhs.0))
    }
}

impl From<u32> for SizeBound {
    fn from(value: u32) -> (r: Self) {
        SizeBound(value)
    }
}

impl vstd::std_specs::convert::FromSpecImpl<u32> for SizeBound {
    open spec fn obeys_from_spec() -> bool {
        true
    }

    open spec fn from_spec(value: u32) -> Self {
        SizeBound(value)
    }
}

/// The sum of `a` and `b` clipped to `u32::MAX`.
pub open spec fn spec_saturating_add_u32(a: u32, b: u32) -> u32 {
    if a + b > u32::MAX {
        u32::MAX
    } else {
        (a + b) as u32
    }
}

/// Saturating addition on `u32`.
fn u32_saturating_add(a: u32, b: u32) -> (r: u32)
    ensures
        r == spec_saturating_add_u32(a, b),
{
    if a > u32::MAX - b {
        u32::MAX
    } else {
        a + b
    }
}

/// Data provider limits that can be bounded based on the count of elements or
/// the encoded size of the final result. A `None` field means that dimension
/// is unlimited.
#[derive(Clone, Copy, Debug, PartialEq, Eq)]
pub struct DataProviderBounds {
    pub count: Option<CountBound>,
    pub size: Option<SizeBound>,
}

impl DataProviderBounds {
    /// True iff `given_count` exhausts the count bound: a bound is set and
    /// `given_count` exceeds it. An unset bound is never exhausted.
    pub open spec fn count_exhausted_spec(self, given_count: CountBound) -> bool {
        match self.count {
            Some(bound) => given_count.0 > bound.0,
            None => false,
        }
    }

    /// True iff `given_size` exhausts the size bound: a bound is set and
    /// `given_size` exceeds it. An unset bound is never exhausted.
    pub open spec fn size_exhausted_spec(self, given_size: SizeBound) -> bool {
        match self.size {
            Some(bound) => given_size.0 > bound.0,
            None => false,
        }
    }

    /// The tightening of `self` by `bounds`: per field, a value of `self` is
    /// clamped to at most the value of `bounds` (an unset `bounds` field clamps
    /// to the largest representable value); an unset field of `self` adopts the
    /// field of `bounds`.
    pub open spec fn max_spec(self, bounds: DataProviderBounds) -> DataProviderBounds {
        DataProviderBounds {
            count: match (self.count, bounds.count) {
                (Some(c), Some(o)) => Some(CountBound(if c.0 <= o.0 { c.0 } else { o.0 })),
                (Some(c), None) => Some(c),
                (None, o) => o,
            },
            size: match (self.size, bounds.size) {
                (Some(s), Some(o)) => Some(SizeBound(if s.0 <= o.0 { s.0 } else { o.0 })),
                (Some(s), None) => Some(s),
                (None, o) => o,
            },
        }
    }

    /// Unbounded data provider limit.
    pub fn new_unbounded() -> (r: Self)
        ensures
            r.count is None,
            r.size is None,
    {
        DataProviderBounds { count: None, size: None }
    }

    /// Returns true if `given_count` exhausts `self.count`.
    pub fn count_exhausted(self, given_count: CountBound) -> (r: bool)
        ensures
            r == self.count_exhausted_spec(given_count),
    {
        match self.count {
            Some(bound) => given_count.0 > bound.0,
            None => false,
        }
    }

    /// Returns true if `given_size` exhausts `self.size`.
    pub fn size_exhausted(self, given_size: SizeBound) -> (r: bool)
        ensures
            r == self.size_exhausted_spec(given_size),
    {
        match self.size {
            Some(bound) => given_size.0 > bound.0,
            None => false,
        }
    }

    /// Returns true if `given_size` or `given_count` exhausts `self.size` or
    /// `self.count`, respectively. An absent observation counts as zero, so it
    /// never trips exhaustion even when a bound is set.
    pub fn exhausted(self, given_size: Option<SizeBound>, given_count: Option<CountBound>) -> (r:
        bool)
        ensures
            r == (self.count_exhausted_spec(
                match given_count {
                    Some(c) => c,
                    None => CountBound(0),
                },
            ) || self.size_exhausted_spec(
                match given_size {
                    Some(s) => s,
                    None => SizeBound(0),
                },
            )),
    {
        let count = match given_count {
            Some(c) => c,
            None => CountBound::zero(),
        };
        let size = match given_size {
            Some(s) => s,
            None => SizeBound::zero(),
        };
        self.count_exhausted(count) || self.size_exhausted(size)
    }

    /// Returns an instance of `Self` that is constructed by capping both the
    /// `count` and `size` fields. An unset field of `self` is overwritten with
    /// the provided bound.
    pub fn max(self, bounds: DataProviderBounds) -> (r: Self)
        ensures
            r == self.max_spec(bounds),
    {
        let count = match (self.count, bounds.count) {
            (Some(c), Some(o)) => Some(CountBound(if c.0 <= o.0 {
                c.0
            } else {
                o.0
            })),
            (Some(c), None) => Some(c),
            (None, o) => o,
        };
        let size = match (self.size, bounds.size) {
            (Some(s), Some(o)) => Some(SizeBound(if s.0 <= o.0 {
                s.0
            } else {
                o.0
            })),
            (Some(s), None) => Some(s),
            (None, o) => o,
        };
        DataProviderBounds { count, size }
    }
}

impl Default for DataProviderBounds {
    /// The default bound is fully unbounded.
    fn default() -> (r: Self)
        ensures
            r.count is None,
            r.size is None,
    {
        DataProviderBounds { count: None, size: None }
    }
}

/// The effective count limit of a bound pair: the bound's value where one is
/// set, else the largest representable count.
pub open spec fn effective_count(bounds: DataProviderBounds) -> int {
    match bounds.count {
        Some(c) => c.0 as int,
        None => u32::MAX as int,
    }
}

/// The effective size limit of a bound pair: the bound's value where one is
/// set, else the largest representable size.
pub open spec fn effective_size(bounds: DataProviderBounds) -> int {
    match bounds.size {
        Some(s) => s.0 as int,
        None => u32::MAX as int,
    }
}

/// Zero is the identity of the saturating addition on bound values.
pub proof fn lemma_zero_is_identity(a: u32)
    ensures
        spec_saturating_add_u32(a, 0) == a,
        spec_saturating_add_u32(0, a) == a,
{
}

/// Composing bounds with `max` always tightens or preserves the effective
/// limit of each dimension, never loosens it: the result's effective limit is
/// exactly the tighter of the two operands' limits.
pub proof fn lemma_max_tightens(a: DataProviderBounds, b: DataProviderBounds)
    ensures
        effective_count(a.max_spec(b)) <= effective_count(a),
        effective_count(a.max_spec(b)) <= effective_count(b),
        effective_size(a.max_spec(b)) <= effective_size(a),
        effective_size(a.max_spec(b)) <= effective_size(b),
        effective_count(a.max_spec(b)) == if effective_count(a) <= effective_count(b) {
            effective_count(a)
        } else {
            effective_count(b)
        },
        effective_size(a.max_spec(b)) == if effective_size(a) <= effective_size(b) {
            effective_size(a)
        } else {
            effective_size(b)
        },
{
}

/// Repeated composition against the same bound converges: applying `max` with
/// `b` a second time changes nothing, so stacked callers settle on the most
/// restrictive applicable limit.
pub proof fn lemma_max_converges(a: DataProviderBounds, b: DataProviderBounds)
    ensures
        a.max_spec(b).max_spec(b) == a.max_spec(b),
{
}

/// The limits of an election snapshot size, given over the count and the size
/// of the voters and of the targets of the election.
#[derive(Clone, Copy, Debug, PartialEq, Eq)]
pub struct ElectionBounds {
    pub voters: DataProviderBounds,
    pub targets: DataProviderBounds,
}

/// Fluent accumulator for [`ElectionBounds`]: the setters fix one sub-bound at
/// a time and `build` defaults any dimension left unset to fully unbounded.
#[derive(Clone, Copy, Debug, PartialEq, Eq)]
pub struct ElectionBoundsBuilder {
    voters: Option<DataProviderBounds>,
    targets: Option<DataProviderBounds>,
}

impl ElectionBoundsBuilder {
    /// The voters bounds accumulated so far, `None` while none were set.
    pub closed spec fn voters_state(self) -> Option<DataProviderBounds> {
        self.voters
    }

    /// The targets bounds accumulated so far, `None` while none were set.
    pub closed spec fn targets_state(self) -> Option<DataProviderBounds> {
        self.targets
    }

    /// Returns a new election bounds builder, initialized with unbounded voter
    /// and target limits.
    pub fn new() -> (r: Self)
        ensures
            r.voters_state() is None,
            r.targets_state() is None,
    {
        ElectionBoundsBuilder { voters: None, targets: None }
    }

    /// Returns a new election bounds builder from an instance of
    /// `ElectionBounds`.
    pub fn from(bounds: ElectionBounds) -> (r: Self)
        ensures
            r.voters_state() == Some(bounds.voters),
            r.targets_state() == Some(bounds.targets),
    {
        ElectionBoundsBuilder { voters: Some(bounds.voters), targets: Some(bounds.targets) }
    }

    /// Sets the voters count bound, creating the bound pair if it was absent.
    pub fn voters_count(self, count: CountBound) -> (r: Self)
        ensures
            r.voters_state() matches Some(v) && v.count == Some(count) && v.size == (
            match self.voters_state() {
                Some(b) => b.size,
                None => None::<SizeBound>,
            }),
            r.targets_state() == self.targets_state(),
    {
        let voters = match self.voters {
            Some(bounds) => DataProviderBounds { count: Some(count), size: bounds.size },
            None => DataProviderBounds { count: Some(count), size: None },
        };
        ElectionBoundsBuilder { voters: Some(voters), targets: self.targets }
    }

    /// Sets the voters size bound, creating the bound pair if it was absent.
    pub fn voters_size(self, size: SizeBound) -> (r: Self)
        ensures
            r.voters_state() matches Some(v) && v.size == Some(size) && v.count == (
            match self.voters_state() {
                Some(b) => b.count,
                None => None::<CountBound>,
            }),
            r.targets_state() == self.targets_state(),
    {
        let voters = match self.voters {
            Some(bounds) => DataProviderBounds { count: bounds.count, size: Some(size) },
            None => DataProviderBounds { count: None, size: Some(size) },
        };
        ElectionBoundsBuilder { voters: Some(voters), targets: self.targets }
    }

    /// Sets the targets count bound, creating the bound pair if it was absent.
    pub fn targets_count(self, count: CountBound) -> (r: Self)
        ensures
            r.targets_state() matches Some(t) && t.count == Some(count) && t.size == (
            match self.targets_state() {
                Some(b) => b.size,
                None => None::<SizeBound>,
            }),
            r.voters_state() == self.voters_state(),
    {
        let targets = match self.targets {
            Some(bounds) => DataProviderBounds { count: Some(count), size: bounds.size },
            None => DataProviderBounds { count: Some(count), size: None },
        };
        ElectionBoundsBuilder { voters: self.voters, targets: Some(targets) }
    }

    /// Sets the targets size bound, creating the bound pair if it was absent.
    pub fn targets_size(self, size: SizeBound) -> (r: Self)
        ensures
            r.targets_state() matches Some(t) && t.size == Some(size) && t.count == (
            match self.targets_state() {
                Some(b) => b.count,
                None => None::<CountBound>,
            }),
            r.voters_state() == self.voters_state(),
    {
        let targets = match self.targets {
            Some(bounds) => DataProviderBounds { count: bounds.count, size: Some(size) },
            None => DataProviderBounds { count: None, size: Some(size) },
        };
        ElectionBoundsBuilder { voters: self.voters, targets: Some(targets) }
    }

    /// Sets the voters bounds wholesale.
    pub fn voters(self, bounds: Option<DataProviderBounds>) -> (r: Self)
        ensures
            r.voters_state() == bounds,
            r.targets_state() == self.targets_state(),
    {
        ElectionBoundsBuilder { voters: bounds, targets: self.targets }
    }

    /// Sets the targets bounds wholesale.
    pub fn targets(self, bounds: Option<DataProviderBounds>) -> (r: Self)
        ensures
            r.targets_state() == bounds,
            r.voters_state() == self.voters_state(),
    {
        ElectionBoundsBuilder { voters: self.voters, targets: bounds }
    }

    /// Caps the voters bounds in self to the `voters` bounds. If the `voters`
    /// bounds are higher than the self bounds, keeps the self bounds. Unset
    /// bounds are equivalent to maximum and are treated as such.
    pub fn voters_or_lower(self, voters: DataProviderBounds) -> (r: Self)
        ensures
            r.voters_state() == Some(
                match self.voters_state() {
                    Some(v) => v.max_spec(voters),
                    None => voters,
                },
            ),
            r.targets_state() == self.targets_state(),
    {
        let capped = match self.voters {
            None => voters,
            Some(v) => v.max(voters),
        };
        ElectionBoundsBuilder { voters: Some(capped), targets: self.targets }
    }

    /// Caps the targets bounds in self to the `targets` bounds. If the
    /// `targets` bounds are higher than the self bounds, keeps the self bounds.
    /// Unset bounds are equivalent to maximum and are treated as such.
    pub fn targets_or_lower(self, targets: DataProviderBounds) -> (r: Self)
        ensures
            r.targets_state() == Some(
                match self.targets_state() {
                    Some(t) => t.max_spec(targets),
                    None => targets,
                },
            ),
            r.voters_state() == self.voters_state(),
    {
        let capped = match self.targets {
            None => targets,
            Some(t) => t.max(targets),
        };
        ElectionBoundsBuilder { voters: self.voters, targets: Some(capped) }
    }

    /// Returns an instance of `ElectionBounds` from the current state,
    /// defaulting any unset dimension to fully unbounded.
    pub fn build(self) -> (r: ElectionBounds)
        ensures
            r.voters == match self.voters_state() {
                Some(v) => v,
                None => DataProviderBounds { count: None, size: None },
            },
            r.targets == match self.targets_state() {
                Some(t) => t,
                None => DataProviderBounds { count: None, size: None },
            },
    {
        let voters = match self.voters {
            Some(v) => v,
            None => DataProviderBounds::new_unbounded(),
        };
        let targets = match self.targets {
            Some(t) => t,
            None => DataProviderBounds::new_unbounded(),
        };
        ElectionBounds { voters, targets }
    }
}

} // verus!
