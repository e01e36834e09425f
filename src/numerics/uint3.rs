//! A vector of three unsigned 32-bit integers, with checked component-wise arithmetic.

use vstd::prelude::*;

verus! {

#[derive(Copy, Clone, Debug, PartialEq, Eq, Structural, Default)]
pub struct UInt3 {
    pub x: u32,
    pub y: u32,
    pub z: u32,
}

impl UInt3 {
    /// The vector with the given components.
    pub fn new(x: u32, y: u32, z: u32) -> (r: UInt3)
        ensures
            r.x == x && r.y == y && r.z == z,
    {
        UInt3 { x, y, z }
    }

    /// Component-wise sum of `self` and `rhs`.
    pub fn add(self, rhs: UInt3) -> (r: UInt3)
        requires
            0 <= self.x + rhs.x <= u32::MAX,
            0 <= self.y + rhs.y <= u32::MAX,
            0 <= self.z + rhs.z <= u32::MAX,
        ensures
            r.x == self.x + rhs.x && r.y == self.y + rhs.y && r.z == self.z + rhs.z,
    {
        UInt3 { x: self.x + rhs.x, y: self.y + rhs.y, z: self.z + rhs.z }
    }

    /// Component-wise sum of `self` and `s` taken for every component.
    pub fn add_scalar(self, s: u32) -> (r: UInt3)
        requires
            0 <= self.x + s <= u32::MAX,
            0 <= self.y + s <= u32::MAX,
            0 <= self.z + s <= u32::MAX,
        ensures
            r.x == self.x + s && r.y == self.y + s && r.z == self.z + s,
    {
        UInt3 { x: self.x + s, y: self.y + s, z: self.z + s }
    }

    /// Component-wise sum of `s` taken for every component and `v`.
    pub fn scalar_add(s: u32, v: UInt3) -> (r: UInt3)
        requires
            0 <= s + v.x <= u32::MAX,
            0 <= s + v.y <= u32::MAX,
            0 <= s + v.z <= u32::MAX,
        ensures
            r.x == s + v.x && r.y == s + v.y && r.z == s + v.z,
    {
        UInt3 { x: s + v.x, y: s + v.y, z: s + v.z }
    }

    /// Replaces `self` by the component-wise sum of `self` and `rhs`.
    pub fn add_assign(&mut self, rhs: UInt3)
        requires
            0 <= old(self).x + rhs.x <= u32::MAX,
            0 <= old(self).y + rhs.y <= u32::MAX,
            0 <= old(self).z + rhs.z <= u32::MAX,
        ensures
            final(self).x == old(self).x + rhs.x && final(self).y == old(self).y + rhs.y && final(self).z == old(self).z + rhs.z,
    {
        self.x = self.x + rhs.x;
        self.y = self.y + rhs.y;
        self.z = self.z + rhs.z;
    }

    /// Replaces `self` by the component-wise sum of `self` and `s` taken for every component.
    pub fn add_assign_scalar(&mut self, s: u32)
        requires
            0 <= old(self).x + s <= u32::MAX,
            0 <= old(self).y + s <= u32::MAX,
            0 <= old(self).z + s <= u32::MAX,
        ensures
            final(self).x == old(self).x + s && final(self).y == old(self).y + s && final(self).z == old(self).z + s,
    {
        self.x = self.x + s;
        self.y = self.y + s;
        self.z = self.z + s;
    }

    /// Component-wise difference of `self` and `rhs`.
    pub fn sub(self, rhs: UInt3) -> (r: UInt3)
        requires
            0 <= self.x - rhs.x <= u32::MAX,
            0 <= self.y - rhs.y <= u32::MAX,
            0 <= self.z - rhs.z <= u32::MAX,
        ensures
            r.x == self.x - rhs.x && r.y == self.y - rhs.y && r.z == self.z - rhs.z,
    {
        UInt3 { x: self.x - rhs.x, y: self.y - rhs.y, z: self.z - rhs.z }
    }

    /// Component-wise difference of `self` and `s` taken for every component.
    pub fn sub_scalar(self, s: u32) -> (r: UInt3)
        requires
            0 <= self.x - s <= u32::MAX,
            0 <= self.y - s <= u32::MAX,
            0 <= self.z - s <= u32::MAX,
        ensures
            r.x == self.x - s && r.y == self.y - s && r.z == self.z - s,
    {
        UInt3 { x: self.x - s, y: self.y - s, z: self.z - s }
    }

    /// Component-wise difference of `s` taken for every component and `v`.
    pub fn scalar_sub(s: u32, v: UInt3) -> (r: UInt3)
        requires
            0 <= s - v.x <= u32::MAX,
            0 <= s - v.y <= u32::MAX,
            0 <= s - v.z <= u32::MAX,
        ensures
            r.x == s - v.x && r.y == s - v.y && r.z == s - v.z,
    {
        UInt3 { x: s - v.x, y: s - v.y, z: s - v.z }
    }

    /// Replaces `self` by the component-wise difference of `self` and `rhs`.
    pub fn sub_assign(&mut self, rhs: UInt3)
        requires
            0 <= old(self).x - rhs.x <= u32::MAX,
            0 <= old(self).y - rhs.y <= u32::MAX,
            0 <= old(self).z - rhs.z <= u32::MAX,
        ensures
            final(self).x == old(self).x - rhs.x && final(self).y == old(self).y - rhs.y && final(self).z == old(self).z - rhs.z,
    {
        self.x = self.x - rhs.x;
        self.y = self.y - rhs.y;
        self.z = self.z - rhs.z;
    }

    /// Replaces `self` by the component-wise difference of `self` and `s` taken for every component.
    pub fn sub_assign_scalar(&mut self, s: u32)
        requires
            0 <= old(self).x - s <= u32::MAX,
            0 <= old(self).y - s <= u32::MAX,
            0 <= old(self).z - s <= u32::MAX,
        ensures
            final(self).x == old(self).x - s && final(self).y == old(self).y - s && final(self).z == old(self).z - s,
    {
        self.x = self.x - s;
        self.y = self.y - s;
        self.z = self.z - s;
    }

    /// Every component multiplied by `s`.
    pub fn mul_scalar(self, s: u32) -> (r: UInt3)
        requires
            0 <= self.x * s <= u32::MAX,
            0 <= self.y * s <= u32::MAX,
            0 <= self.z * s <= u32::MAX,
        ensures
            r.x == self.x * s && r.y == self.y * s && r.z == self.z * s,
    {
        UInt3 { x: self.x * s, y: self.y * s, z: self.z * s }
    }

    /// Every component of `v` multiplied by `s`.
    pub fn scalar_mul(s: u32, v: UInt3) -> (r: UInt3)
        requires
            0 <= s * v.x <= u32::MAX,
            0 <= s * v.y <= u32::MAX,
            0 <= s * v.z <= u32::MAX,
        ensures
            r.x == s * v.x && r.y == s * v.y && r.z == s * v.z,
    {
        UInt3 { x: s * v.x, y: s * v.y, z: s * v.z }
    }

    /// Multiplies every component of `self` by `s`.
    pub fn mul_assign_scalar(&mut self, s: u32)
        requires
            0 <= old(self).x * s <= u32::MAX,
            0 <= old(self).y * s <= u32::MAX,
            0 <= old(self).z * s <= u32::MAX,
        ensures
            final(self).x == old(self).x * s && final(self).y == old(self).y * s && final(self).z == old(self).z * s,
    {
        self.x = self.x * s;
        self.y = self.y * s;
        self.z = self.z * s;
    }

    /// Every component divided by `s`, rounding down.
    pub fn div_scalar(self, s: u32) -> (r: UInt3)
        requires
            s != 0,
        ensures
            r.x == self.x / s && r.y == self.y / s && r.z == self.z / s,
    {
        UInt3 { x: self.x / s, y: self.y / s, z: self.z / s }
    }

    /// Divides every component of `self` by `s`, rounding down.
    pub fn div_assign_scalar(&mut self, s: u32)
        requires
            s != 0,
        ensures
            final(self).x == old(self).x / s && final(self).y == old(self).y / s && final(self).z == old(self).z / s,
    {
        self.x = self.x / s;
        self.y = self.y / s;
        self.z = self.z / s;
    }
}

} // verus!
