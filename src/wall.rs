//! The order on walls: by the distance from the origin of their nearer end.
//!
//! Walls that are equally near compare equal whatever their ends are; this
//! is an order by proximity only, not a structural equality.
use std::cmp::Ordering;
use vstd::prelude::*;

use crate::binary64::{
    compare, compare_spec, equal, equal_spec, int_order, is_nan_spec, minimum, minimum_spec, rank,
};

verus! {

/// Why two walls could not be ordered, or a query on a wall could not be answered.
#[derive(Clone, Copy, Debug, PartialEq, Eq, Structural)]
pub enum WallError {
    /// The nearer end of one of the walls lies at a NaN distance.
    Incomparable,
    /// Intersecting a ray with a wall is not supported.
    IntersectionUnsupported,
}

/// A wall seen by its two ends: the distance of each from the origin, as the
/// encoding of a binary64 value.
#[derive(Clone, Copy, Debug)]
pub struct WallDistances {
    pub beginning: u64,
    pub end: u64,
}

/// The other way round: `Less` and `Greater` trade places.
pub open spec fn reversed(o: Option<Ordering>) -> Option<Ordering> {
    match o {
        Some(Ordering::Less) => Some(Ordering::Greater),
        Some(Ordering::Greater) => Some(Ordering::Less),
        other => other,
    }
}

impl WallDistances {
    /// The key by which walls are ordered: the nearer end's distance.
    pub open spec fn closest(self) -> u64 {
        minimum_spec(self.beginning, self.end)
    }

    /// How two walls compare by proximity; `None` where a key is a NaN.
    pub open spec fn order_spec(self, other: Self) -> Option<Ordering> {
        compare_spec(self.closest(), other.closest())
    }

    /// A wall whose ends lie at the two given distances.
    pub fn new(beginning: u64, end: u64) -> (r: Self)
        ensures
            r.beginning == beginning,
            r.end == end,
    {
        WallDistances { beginning, end }
    }

    /// Distance to the nearer end of the wall. A NaN end is passed over; the
    /// result is a NaN only where both ends are.
    pub fn distance_to_closest_point(&self) -> (r: u64)
        ensures
            r == self.closest(),
            r == self.beginning || r == self.end,
            is_nan_spec(r) <==> (is_nan_spec(self.beginning) && is_nan_spec(self.end)),
            !is_nan_spec(r) ==> (!is_nan_spec(self.beginning) ==> rank(r) <= rank(self.beginning))
                && (!is_nan_spec(self.end) ==> rank(r) <= rank(self.end)),
    {
        minimum(self.beginning, self.end)
    }

    /// Whether the two walls are equally near the origin.
    pub fn proximity_eq(&self, other: &Self) -> (r: bool)
        ensures
            r == equal_spec(self.closest(), other.closest()),
    {
        equal(self.distance_to_closest_point(), other.distance_to_closest_point())
    }

    /// Compares two walls by proximity, the nearer first; `None` where the
    /// nearer end of either lies at a NaN distance.
    pub fn proximity_cmp(&self, other: &Self) -> (r: Option<Ordering>)
        ensures
            r == self.order_spec(*other),
            r is None <==> (is_nan_spec(self.closest()) || is_nan_spec(other.closest())),
            r is Some ==> r == Some(int_order(rank(self.closest()), rank(other.closest()))),
    {
        compare(self.distance_to_closest_point(), other.distance_to_closest_point())
    }

    /// Compares two walls by proximity, with an explicit error where they
    /// cannot be ordered.
    pub fn try_cmp(&self, other: &Self) -> (r: Result<Ordering, WallError>)
        ensures
            r == match self.order_spec(*other) {
                Some(o) => Ok(o),
                None => Err(WallError::Incomparable),
            },
    {
        match self.proximity_cmp(other) {
            Some(o) => Ok(o),
            None => Err(WallError::Incomparable),
        }
    }
}

/// Walls whose nearer ends are equally far from the origin compare equal,
/// whatever their other ends.
pub proof fn lemma_order_by_proximity_only(a: WallDistances, b: WallDistances)
    requires
        equal_spec(a.closest(), b.closest()),
    ensures
        a.order_spec(b) == Some(Ordering::Equal),
        b.order_spec(a) == Some(Ordering::Equal),
{
}

/// A wall whose nearer end is strictly nearer the origin sorts first.
pub proof fn lemma_nearer_wall_first(a: WallDistances, b: WallDistances)
    requires
        !is_nan_spec(a.closest()),
        !is_nan_spec(b.closest()),
        rank(a.closest()) < rank(b.closest()),
    ensures
        a.order_spec(b) == Some(Ordering::Less),
        b.order_spec(a) == Some(Ordering::Greater),
{
}

/// Comparing the other way round reverses the result.
pub proof fn lemma_order_antisymmetric(a: WallDistances, b: WallDistances)
    ensures
        a.order_spec(b) == reversed(b.order_spec(a)),
{
}

/// A wall is equal to itself unless its key is a NaN.
pub proof fn lemma_order_reflexive(a: WallDistances)
    ensures
        a.order_spec(a) == Some(Ordering::Equal) <==> !is_nan_spec(a.closest()),
{
}

/// Sorting first, and comparing equal, are transitive.
pub proof fn lemma_order_transitive(a: WallDistances, b: WallDistances, c: WallDistances)
    ensures
        a.order_spec(b) == Some(Ordering::Less) && b.order_spec(c) == Some(Ordering::Less)
            ==> a.order_spec(c) == Some(Ordering::Less),
        a.order_spec(b) == Some(Ordering::Equal) && b.order_spec(c) == Some(Ordering::Equal)
            ==> a.order_spec(c) == Some(Ordering::Equal),
        a.order_spec(b) == Some(Ordering::Less) && b.order_spec(c) == Some(Ordering::Equal)
            ==> a.order_spec(c) == Some(Ordering::Less),
        a.order_spec(b) == Some(Ordering::Equal) && b.order_spec(c) == Some(Ordering::Less)
            ==> a.order_spec(c) == Some(Ordering::Less),
{
}

} // verus!
