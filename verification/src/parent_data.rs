//! Type-erased parent data: a box that holds one value of one of several
//! types, and shows it only to a caller who asks for the type that is stored.
//!
//! A parent attaches what it likes to a child; the child's own code need not
//! know which types that may be. The box decides by the identity of the
//! stored type, never by the shape of the value: a count is not seen as a
//! flag, whatever it holds. Asking for another type is no failure, the answer
//! is `None`.

use vstd::prelude::*;
use crate::geometry::Offset;

verus! {

/// A box that holds a value of a type known only at run time.
pub trait AnyBox: Sized {
    /// Identity of the type of the value held; each type that the box can
    /// hold has its own.
    spec fn held_type(&self) -> int;
}

/// `Self` can hold a `T`.
pub trait Holds<T>: AnyBox {
    /// Identity of `T` among the types that `Self` can hold.
    spec fn type_of() -> int;

    /// The box that holds `value`.
    spec fn boxed(value: T) -> Self;

    /// The value held, seen as a `T`; `None` when the box holds another type.
    spec fn payload(&self) -> Option<T>;

    /// A box made from a `T` holds that type and that value.
    proof fn lemma_boxed(value: T)
        ensures
            Self::boxed(value).held_type() == Self::type_of(),
            Self::boxed(value).payload() == Some(value),
    ;

    /// A box shows a `T` exactly when it holds that type, and then it is the
    /// box made from that value.
    proof fn lemma_payload(&self)
        ensures
            self.payload() is Some <==> self.held_type() == Self::type_of(),
            self.payload() matches Some(value) ==> *self == Self::boxed(value),
    ;

    /// Boxes `value`.
    fn erase(value: T) -> (slot: Self)
        ensures
            slot == Self::boxed(value),
    ;

    /// A shared view of the value held, if it is a `T`.
    fn downcast_ref(&self) -> (view: Option<&T>)
        ensures
            match view {
                Some(value) => self.payload() == Some(*value),
                None => self.payload() is None,
            },
    ;

    /// An exclusive view of the value held, if it is a `T`. What is written
    /// through the view is what the box holds afterwards.
    fn downcast_mut(&mut self) -> (view: Option<&mut T>)
        ensures
            match view {
                Some(value) => old(self).payload() == Some(*value) && *final(self) == Self::boxed(
                    *final(value),
                ),
                None => old(self).payload() is None && *final(self) == *old(self),
            },
    ;
}

/// A ready-made box for parents that attach plain values: it holds a `bool`,
/// a `u64` or an [`Offset`], or nothing.
#[derive(Clone, Copy, Debug, PartialEq, Eq, Structural)]
pub enum PlainData {
    /// Nothing attached.
    Empty,
    /// A flag.
    Flag(bool),
    /// A count, such as a flex factor.
    Count(u64),
    /// A position.
    Position(Offset),
}

impl AnyBox for PlainData {
    open spec fn held_type(&self) -> int {
        match self {
            PlainData::Empty => 0,
            PlainData::Flag(_) => 1,
            PlainData::Count(_) => 2,
            PlainData::Position(_) => 3,
        }
    }
}

impl Holds<bool> for PlainData {
    open spec fn type_of() -> int {
        1
    }

    open spec fn boxed(value: bool) -> PlainData {
        PlainData::Flag(value)
    }

    open spec fn payload(&self) -> Option<bool> {
        match self {
            PlainData::Flag(value) => Some(*value),
            _ => None,
        }
    }

    proof fn lemma_boxed(value: bool) {
    }

    proof fn lemma_payload(&self) {
    }

    fn erase(value: bool) -> (slot: PlainData) {
        PlainData::Flag(value)
    }

    fn downcast_ref(&self) -> (view: Option<&bool>) {
        match self {
            PlainData::Flag(value) => Some(value),
            _ => None,
        }
    }

    fn downcast_mut(&mut self) -> (view: Option<&mut bool>) {
        match self {
            PlainData::Flag(value) => Some(value),
            _ => None,
        }
    }
}

impl Holds<u64> for PlainData {
    open spec fn type_of() -> int {
        2
    }

    open spec fn boxed(value: u64) -> PlainData {
        PlainData::Count(value)
    }

    open spec fn payload(&self) -> Option<u64> {
        match self {
            PlainData::Count(value) => Some(*value),
            _ => None,
        }
    }

    proof fn lemma_boxed(value: u64) {
    }

    proof fn lemma_payload(&self) {
    }

    fn erase(value: u64) -> (slot: PlainData) {
        PlainData::Count(value)
    }

    fn downcast_ref(&self) -> (view: Option<&u64>) {
        match self {
            PlainData::Count(value) => Some(value),
            _ => None,
        }
    }

    fn downcast_mut(&mut self) -> (view: Option<&mut u64>) {
        match self {
            PlainData::Count(value) => Some(value),
            _ => None,
        }
    }
}

impl Holds<Offset> for PlainData {
    open spec fn type_of() -> int {
        3
    }

    open spec fn boxed(value: Offset) -> PlainData {
        PlainData::Position(value)
    }

    open spec fn payload(&self) -> Option<Offset> {
        match self {
            PlainData::Position(value) => Some(*value),
            _ => None,
        }
    }

    proof fn lemma_boxed(value: Offset) {
    }

    proof fn lemma_payload(&self) {
    }

    fn erase(value: Offset) -> (slot: PlainData) {
        PlainData::Position(value)
    }

    fn downcast_ref(&self) -> (view: Option<&Offset>) {
        match self {
            PlainData::Position(value) => Some(value),
            _ => None,
        }
    }

    fn downcast_mut(&mut self) -> (view: Option<&mut Offset>) {
        match self {
            PlainData::Position(value) => Some(value),
            _ => None,
        }
    }
}

} // verus!
