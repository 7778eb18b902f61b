//! The rectangle type and its area.

use vstd::prelude::*;

verus! {

/// An axis-aligned rectangle whose two sides are 16-bit unsigned integers,
/// in arbitrary units.
///
/// Every pair of sides is a valid rectangle: the type has no invariant. What
/// not every rectangle has is an area that is itself a 16-bit value; see
/// [`Rectangle::area_fits`].
#[derive(Clone, Copy, Debug, PartialEq, Eq, Structural)]
pub struct Rectangle {
    pub length: u16,
    pub width: u16,
}

impl Rectangle {
    /// The area as a mathematical integer: the product of the two sides,
    /// without any bound.
    pub open spec fn spec_area(&self) -> nat {
        self.length as nat * self.width as nat
    }

    /// Whether the area can be held in 16 bits.
    pub open spec fn area_fits(&self) -> bool {
        self.spec_area() <= u16::MAX
    }

    /// The area of a rectangle whose area fits in 16 bits.
    ///
    /// Rectangles whose area does not fit are left out by the precondition;
    /// [`Rectangle::checked_area`] accepts them all.
    pub fn area(&self) -> (a: u16)
        requires
            self.area_fits(),
        ensures
            a == self.spec_area(),
    {
        self.length * self.width
    }

    /// The area of any rectangle, with overflow reported rather than hidden:
    /// `Some` of the area exactly when it fits in 16 bits, and `None`
    /// otherwise. The product is never wrapped or saturated.
    pub fn checked_area(&self) -> (a: Option<u16>)
        ensures
            self.area_fits() ==> a == Some(self.spec_area() as u16),
            !self.area_fits() ==> a is None,
    {
        self.length.checked_mul(self.width)
    }
}

/// The area does not depend on which side is called the length: swapping
/// the two sides changes neither the area nor whether it fits in 16 bits.
pub proof fn lemma_area_commutative(length: u16, width: u16)
    ensures
        (Rectangle { length, width }).spec_area()
            == (Rectangle { length: width, width: length }).spec_area(),
        (Rectangle { length, width }).area_fits()
            == (Rectangle { length: width, width: length }).area_fits(),
{
    assert(length as nat * width as nat == width as nat * length as nat) by (nonlinear_arith);
}

/// The area is a function of the two sides and of nothing else: rectangles
/// with the same sides have the same area, so asking one unchanged rectangle
/// for its area any number of times gives one answer.
pub proof fn lemma_area_determined_by_sides(r: Rectangle, s: Rectangle)
    requires
        r.length == s.length,
        r.width == s.width,
    ensures
        r.spec_area() == s.spec_area(),
        r.area_fits() == s.area_fits(),
{
}

/// A rectangle with a side of zero has area zero, whatever its other side,
/// and that area fits.
pub proof fn lemma_zero_side_area(r: Rectangle)
    requires
        r.length == 0 || r.width == 0,
    ensures
        r.spec_area() == 0,
        r.area_fits(),
{
    assert(r.length as nat * r.width as nat == 0) by (nonlinear_arith)
        requires
            r.length == 0 || r.width == 0,
    ;
}

} // verus!
