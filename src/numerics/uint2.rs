//! A vector of two unsigned 32-bit integers, with checked component-wise arithmetic.

use vstd::prelude::*;

verus! {

#[derive(Copy, Clone, Debug, PartialEq, Eq, Structural, Default)]
pub struct UInt2 {
    pub x: u32,
    pub y: u32,
}

impl UInt2 {
    /// The vector with the given components.
    pub fn new(x: u32, y: u32) -> (r: UInt2)
        ensures
            r.x == x && r.y == y,
    {
        UInt2 { x, y }
    }

    /// Component-wise sum of `self` and `rhs`.
    pub fn add(self, rhs: UInt2) -> (r: UInt2)
        requires
            0 <= self.x + rhs.x <= u32::MAX,
            0 <= self.y + rhs.y <= u32::MAX,
        ensures
            r.x == self.x + rhs.x && r.y == self.y + rhs.y,
    {
        UInt2 { x: self.x + rhs.x, y: self.y + rhs.y }
    }

    /// Component-wise sum of `self` and `s` taken for every component.
    pub fn add_scalar(self, s: u32) -> (r: UInt2)
        requires
            0 <= self.x + s <= u32::MAX,
            0 <= self.y + s <= u32::MAX,
        ensures
            r.x == self.x + s && r.y == self.y + s,
    {
        UInt2 { x: self.x + s, y: self.y + s }
    }

    /// Component-wise sum of `s` taken for every component and `v`.
    pub fn scalar_add(s: u32, v: UInt2) -> (r: UInt2)
        requires
            0 <= s + v.x <= u32::MAX,
            0 <= s + v.y <= u32::MAX,
        ensures
            r.x == s + v.x && r.y == s + v.y,
    {
        UInt2 { x: s + v.x, y: s + v.y }
    }

    /// Replaces `self` by the component-wise sum of `self` and `rhs`.
    pub fn add_assign(&mut self, rhs: UInt2)
        requires
            0 <= old(self).x + rhs.x <= u32::MAX,
            0 <= old(self).y + rhs.y <= u32::MAX,
        ensures
            final(self).x == old(self).x + rhs.x && final(self).y == old(self).y + rhs.y,
    {
        self.x = self.x + rhs.x;
        self.y = self.y + rhs.y;
    }

    /// Replaces `self` by the component-wise sum of `self` and `s` taken for every component.
    pub fn add_assign_scalar(&mut self, s: u32)
        requires
            0 <= old(self).x + s <= u32::MAX,
            0 <= old(self).y + s <= u32::MAX,
        ensures
            final(self).x == old(self).x + s && final(self).y == old(self).y + s,
    {
        self.x = self.x + s;
        self.y = self.y + s;
    }

    /// Component-wise difference of `self` and `rhs`.
    pub fn sub(self, rhs: UInt2) -> (r: UInt2)
        requires
            0 <= self.x - rhs.x <= u32::MAX,
            0 <= self.y - rhs.y <= u32::MAX,
        ensures
            r.x == self.x - rhs.x && r.y == self.y - rhs.y,
    {
        UInt2 { x: self.x - rhs.x, y: self.y - rhs.y }
    }

    /// Component-wise difference of `self` and `s` taken for every component.
    pub fn sub_scalar(self, s: u32) -> (r: UInt2)
        requires
            0 <= self.x - s <= u32::MAX,
            0 <= self.y - s <= u32::MAX,
        ensures
            r.x == self.x - s && r.y == self.y - s,
    {
        UInt2 { x: self.x - s, y: self.y - s }
    }

    /// Component-wise difference of `s` taken for every component and `v`.
    pub fn scalar_sub(s: u32, v: UInt2) -> (r: UInt2)
        requires
            0 <= s - v.x <= u32::MAX,
            0 <= s - v.y <= u32::MAX,
        ensures
            r.x == s - v.x && r.y == s - v.y,
    {
        UInt2 { x: s - v.x, y: s - v.y }
    }

    /// Replaces `self` by the component-wise difference of `self` and `rhs`.
    pub fn sub_assign(&mut self, rhs: UInt2)
        requires
            0 <= old(self).x - rhs.x <= u32::MAX,
            0 <= old(self).y - rhs.y <= u32::MAX,
        ensures
            final(self).x == old(self).x - rhs.x && final(self).y == old(self).y - rhs.y,
    {
        self.x = self.x - rhs.x;
        self.y = self.y - rhs.y;
    }

    /// Replaces `self` by the component-wise difference of `self` and `s` taken for every component.
    pub fn sub_assign_scalar(&mut self, s: u32)
        requires
            0 <= old(self).x - s <= u32::MAX,
            0 <= old(self).y - s <= u32::MAX,
        ensures
            final(self).x == old(self).x - s && final(self).y == old(self).y - s,
    {
        self.x = self.x - s;
        self.y = self.y - s;
    }

    /// Every component multiplied by `s`.
    pub fn mul_scalar(self, s: u32) -> (r: UInt2)
        requires
            0 <= self.x * s <= u32::MAX,
            0 <= self.y * s <= u32::MAX,
        ensures
            r.x == self.x * s && r.y == self.y * s,
    {
        UInt2 { x: self.x * s, y: self.y * s }
    }

    /// Every component of `v` multiplied by `s`.
    pub fn scalar_mul(s: u32, v: UInt2) -> (r: UInt2)
        requires
            0 <= s * v.x <= u32::MAX,
            0 <= s * v.y <= u32::MAX,
        ensures
            r.x == s * v.x && r.y == s * v.y,
    {
        UInt2 { x: s * v.x, y: s * v.y }
    }

    /// Multiplies every component of `self` by `s`.
    pub fn mul_assign_scalar(&mut self, s: u32)
        requires
            0 <= old(self).x * s <= u32::MAX,
            0 <= old(self).y * s <= u32::MAX,
        ensures
            final(self).x == old(self).x * s && final(self).y == old(self).y * s,
    {
        self.x = self.x * s;
        self.y = self.y * s;
    }

    /// Every component divided by `s`, rounding down.
    pub fn div_scalar(self, s: u32) -> (r: UInt2)
        requires
            s != 0,
        ensures
            r.x == self.x / s && r.y == self.y / s,
    {
        UInt2 { x: self.x / s, y: self.y / s }
    }

    /// Divides every component of `self` by `s`, rounding down.
    pub fn div_assign_scalar(&mut self, s: u32)
        requires
            s != 0,
        ensures
            final(self).x == old(self).x / s && final(self).y == old(self).y / s,
    {
        self.x = self.x / s;
        self.y = self.y / s;
    }
}

} // verus!
