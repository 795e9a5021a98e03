//! Plain geometry in whole units: positions and extents on the integer grid,
//! with componentwise arithmetic on positions.

use vstd::prelude::*;
use vstd::std_specs::ops::{AddSpec, NegSpec, SubSpec};

verus! {

/// A position, or the displacement from one position to another.
#[derive(Clone, Copy, Debug, PartialEq, Eq, Structural)]
pub struct Offset {
    pub x: i64,
    pub y: i64,
}

/// The extent of a laid-out node.
#[derive(Clone, Copy, Debug, PartialEq, Eq, Structural)]
pub struct Size {
    pub width: i64,
    pub height: i64,
}

impl Offset {
    /// The origin.
    pub open spec fn zero() -> Offset {
        Offset { x: 0, y: 0 }
    }

    /// `self - rhs`, or `None` when a coordinate of the difference does not
    /// fit.
    pub fn checked_sub(self, rhs: Offset) -> (difference: Option<Offset>)
        ensures
            difference is Some <==> self.sub_req(rhs),
            difference matches Some(d) ==> d.x == self.x - rhs.x && d.y == self.y - rhs.y,
    {
        match (self.x.checked_sub(rhs.x), self.y.checked_sub(rhs.y)) {
            (Some(x), Some(y)) => Some(Offset { x, y }),
            _ => None,
        }
    }

    /// `self + rhs`, or `None` when a coordinate of the sum does not fit.
    pub fn checked_add(self, rhs: Offset) -> (sum: Option<Offset>)
        ensures
            sum is Some <==> self.add_req(rhs),
            sum matches Some(s) ==> s.x == self.x + rhs.x && s.y == self.y + rhs.y,
    {
        match (self.x.checked_add(rhs.x), self.y.checked_add(rhs.y)) {
            (Some(x), Some(y)) => Some(Offset { x, y }),
            _ => None,
        }
    }
}

impl Default for Offset {
    fn default() -> (origin: Offset)
        ensures
            origin == Offset::zero(),
    {
        Offset { x: 0, y: 0 }
    }
}

impl vstd::std_specs::ops::AddSpecImpl for Offset {
    open spec fn obeys_add_spec() -> bool {
        true
    }

    /// Both coordinates of the sum fit.
    open spec fn add_req(self, rhs: Offset) -> bool {
        &&& i64::MIN <= self.x + rhs.x <= i64::MAX
        &&& i64::MIN <= self.y + rhs.y <= i64::MAX
    }

    open spec fn add_spec(self, rhs: Offset) -> Offset {
        Offset { x: (self.x + rhs.x) as i64, y: (self.y + rhs.y) as i64 }
    }
}

impl core::ops::Add for Offset {
    type Output = Offset;

    fn add(self, rhs: Offset) -> (sum: Offset) {
        Offset { x: self.x + rhs.x, y: self.y + rhs.y }
    }
}

impl vstd::std_specs::ops::SubSpecImpl for Offset {
    open spec fn obeys_sub_spec() -> bool {
        true
    }

    /// Both coordinates of the difference fit.
    open spec fn sub_req(self, rhs: Offset) -> bool {
        &&& i64::MIN <= self.x - rhs.x <= i64::MAX
        &&& i64::MIN <= self.y - rhs.y <= i64::MAX
    }

    open spec fn sub_spec(self, rhs: Offset) -> Offset {
        Offset { x: (self.x - rhs.x) as i64, y: (self.y - rhs.y) as i64 }
    }
}

impl core::ops::Sub for Offset {
    type Output = Offset;

    fn sub(self, rhs: Offset) -> (difference: Offset) {
        Offset { x: self.x - rhs.x, y: self.y - rhs.y }
    }
}

impl vstd::std_specs::ops::NegSpecImpl for Offset {
    open spec fn obeys_neg_spec() -> bool {
        true
    }

    /// Neither coordinate is the least `i64`, which has no negative.
    open spec fn neg_req(self) -> bool {
        self.x > i64::MIN && self.y > i64::MIN
    }

    open spec fn neg_spec(self) -> Offset {
        Offset { x: (-self.x) as i64, y: (-self.y) as i64 }
    }
}

impl core::ops::Neg for Offset {
    type Output = Offset;

    fn neg(self) -> (negated: Offset) {
        Offset { x: -self.x, y: -self.y }
    }
}

/// Adding a displacement and taking it away again gives the start back.
pub proof fn lemma_add_then_sub(a: Offset, b: Offset)
    requires
        a.add_req(b),
    ensures
        a.add_spec(b).sub_req(b),
        a.add_spec(b).sub_spec(b) == a,
{
}

/// A displacement and its negative cancel.
pub proof fn lemma_add_neg(a: Offset)
    requires
        a.neg_req(),
    ensures
        a.add_req(a.neg_spec()),
        a.add_spec(a.neg_spec()) == Offset::zero(),
{
}

} // verus!
