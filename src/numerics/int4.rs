//! A vector of four signed 32-bit integers, with checked component-wise arithmetic.

use vstd::prelude::*;

use super::{div_i32, trunc_div};

verus! {

#[derive(Copy, Clone, Debug, PartialEq, Eq, Structural)]
pub struct Int4 {
    pub x: i32,
    pub y: i32,
    pub z: i32,
    pub w: i32,
}

impl Int4 {
    /// The vector with the given components.
    pub fn new(x: i32, y: i32, z: i32, w: i32) -> (r: Int4)
        ensures
            r.x == x && r.y == y && r.z == z && r.w == w,
    {
        Int4 { x, y, z, w }
    }

    /// Component-wise sum of `self` and `rhs`.
    pub fn add(self, rhs: Int4) -> (r: Int4)
        requires
            i32::MIN <= self.x + rhs.x <= i32::MAX,
            i32::MIN <= self.y + rhs.y <= i32::MAX,
            i32::MIN <= self.z + rhs.z <= i32::MAX,
            i32::MIN <= self.w + rhs.w <= i32::MAX,
        ensures
            r.x == self.x + rhs.x && r.y == self.y + rhs.y && r.z == self.z + rhs.z && r.w == self.w + rhs.w,
    {
        Int4 { x: self.x + rhs.x, y: self.y + rhs.y, z: self.z + rhs.z, w: self.w + rhs.w }
    }

    /// Component-wise sum of `self` and `s` taken for every component.
    pub fn add_scalar(self, s: i32) -> (r: Int4)
        requires
            i32::MIN <= self.x + s <= i32::MAX,
            i32::MIN <= self.y + s <= i32::MAX,
            i32::MIN <= self.z + s <= i32::MAX,
            i32::MIN <= self.w + s <= i32::MAX,
        ensures
            r.x == self.x + s && r.y == self.y + s && r.z == self.z + s && r.w == self.w + s,
    {
        Int4 { x: self.x + s, y: self.y + s, z: self.z + s, w: self.w + s }
    }

    /// Component-wise sum of `s` taken for every component and `v`.
    pub fn scalar_add(s: i32, v: Int4) -> (r: Int4)
        requires
            i32::MIN <= s + v.x <= i32::MAX,
            i32::MIN <= s + v.y <= i32::MAX,
            i32::MIN <= s + v.z <= i32::MAX,
            i32::MIN <= s + v.w <= i32::MAX,
        ensures
            r.x == s + v.x && r.y == s + v.y && r.z == s + v.z && r.w == s + v.w,
    {
        Int4 { x: s + v.x, y: s + v.y, z: s + v.z, w: s + v.w }
    }

    /// Replaces `self` by the component-wise sum of `self` and `rhs`.
    pub fn add_assign(&mut self, rhs: Int4)
        requires
            i32::MIN <= old(self).x + rhs.x <= i32::MAX,
            i32::MIN <= old(self).y + rhs.y <= i32::MAX,
            i32::MIN <= old(self).z + rhs.z <= i32::MAX,
            i32::MIN <= old(self).w + rhs.w <= i32::MAX,
        ensures
            final(self).x == old(self).x + rhs.x && final(self).y == old(self).y + rhs.y && final(self).z == old(self).z + rhs.z && final(self).w == old(self).w + rhs.w,
    {
        self.x = self.x + rhs.x;
        self.y = self.y + rhs.y;
        self.z = self.z + rhs.z;
        self.w = self.w + rhs.w;
    }

    /// Replaces `self` by the component-wise sum of `self` and `s` taken for every component.
    pub fn add_assign_scalar(&mut self, s: i32)
        requires
            i32::MIN <= old(self).x + s <= i32::MAX,
            i32::MIN <= old(self).y + s <= i32::MAX,
            i32::MIN <= old(self).z + s <= i32::MAX,
            i32::MIN <= old(self).w + s <= i32::MAX,
        ensures
            final(self).x == old(self).x + s && final(self).y == old(self).y + s && final(self).z == old(self).z + s && final(self).w == old(self).w + s,
    {
        self.x = self.x + s;
        self.y = self.y + s;
        self.z = self.z + s;
        self.w = self.w + s;
    }

    /// Component-wise difference of `self` and `rhs`.
    pub fn sub(self, rhs: Int4) -> (r: Int4)
        requires
            i32::MIN <= self.x - rhs.x <= i32::MAX,
            i32::MIN <= self.y - rhs.y <= i32::MAX,
            i32::MIN <= self.z - rhs.z <= i32::MAX,
            i32::MIN <= self.w - rhs.w <= i32::MAX,
        ensures
            r.x == self.x - rhs.x && r.y == self.y - rhs.y && r.z == self.z - rhs.z && r.w == self.w - rhs.w,
    {
        Int4 { x: self.x - rhs.x, y: self.y - rhs.y, z: self.z - rhs.z, w: self.w - rhs.w }
    }

    /// Component-wise difference of `self` and `s` taken for every component.
    pub fn sub_scalar(self, s: i32) -> (r: Int4)
        requires
            i32::MIN <= self.x - s <= i32::MAX,
            i32::MIN <= self.y - s <= i32::MAX,
            i32::MIN <= self.z - s <= i32::MAX,
            i32::MIN <= self.w - s <= i32::MAX,
        ensures
            r.x == self.x - s && r.y == self.y - s && r.z == self.z - s && r.w == self.w - s,
    {
        Int4 { x: self.x - s, y: self.y - s, z: self.z - s, w: self.w - s }
    }

    /// Component-wise difference of `s` taken for every component and `v`.
    pub fn scalar_sub(s: i32, v: Int4) -> (r: Int4)
        requires
            i32::MIN <= s - v.x <= i32::MAX,
            i32::MIN <= s - v.y <= i32::MAX,
            i32::MIN <= s - v.z <= i32::MAX,
            i32::MIN <= s - v.w <= i32::MAX,
        ensures
            r.x == s - v.x && r.y == s - v.y && r.z == s - v.z && r.w == s - v.w,
    {
        Int4 { x: s - v.x, y: s - v.y, z: s - v.z, w: s - v.w }
    }

    /// Replaces `self` by the component-wise difference of `self` and `rhs`.
    pub fn sub_assign(&mut self, rhs: Int4)
        requires
            i32::MIN <= old(self).x - rhs.x <= i32::MAX,
            i32::MIN <= old(self).y - rhs.y <= i32::MAX,
            i32::MIN <= old(self).z - rhs.z <= i32::MAX,
            i32::MIN <= old(self).w - rhs.w <= i32::MAX,
        ensures
            final(self).x == old(self).x - rhs.x && final(self).y == old(self).y - rhs.y && final(self).z == old(self).z - rhs.z && final(self).w == old(self).w - rhs.w,
    {
        self.x = self.x - rhs.x;
        self.y = self.y - rhs.y;
        self.z = self.z - rhs.z;
        self.w = self.w - rhs.w;
    }

    /// Replaces `self` by the component-wise difference of `self` and `s` taken for every component.
    pub fn sub_assign_scalar(&mut self, s: i32)
        requires
            i32::MIN <= old(self).x - s <= i32::MAX,
            i32::MIN <= old(self).y - s <= i32::MAX,
            i32::MIN <= old(self).z - s <= i32::MAX,
            i32::MIN <= old(self).w - s <= i32::MAX,
        ensures
            final(self).x == old(self).x - s && final(self).y == old(self).y - s && final(self).z == old(self).z - s && final(self).w == old(self).w - s,
    {
        self.x = self.x - s;
        self.y = self.y - s;
        self.z = self.z - s;
        self.w = self.w - s;
    }

    /// Every component multiplied by `s`.
    pub fn mul_scalar(self, s: i32) -> (r: Int4)
        requires
            i32::MIN <= self.x * s <= i32::MAX,
            i32::MIN <= self.y * s <= i32::MAX,
            i32::MIN <= self.z * s <= i32::MAX,
            i32::MIN <= self.w * s <= i32::MAX,
        ensures
            r.x == self.x * s && r.y == self.y * s && r.z == self.z * s && r.w == self.w * s,
    {
        Int4 { x: self.x * s, y: self.y * s, z: self.z * s, w: self.w * s }
    }

    /// Every component of `v` multiplied by `s`.
    pub fn scalar_mul(s: i32, v: Int4) -> (r: Int4)
        requires
            i32::MIN <= s * v.x <= i32::MAX,
            i32::MIN <= s * v.y <= i32::MAX,
            i32::MIN <= s * v.z <= i32::MAX,
            i32::MIN <= s * v.w <= i32::MAX,
        ensures
            r.x == s * v.x && r.y == s * v.y && r.z == s * v.z && r.w == s * v.w,
    {
        Int4 { x: s * v.x, y: s * v.y, z: s * v.z, w: s * v.w }
    }

    /// Multiplies every component of `self` by `s`.
    pub fn mul_assign_scalar(&mut self, s: i32)
        requires
            i32::MIN <= old(self).x * s <= i32::MAX,
            i32::MIN <= old(self).y * s <= i32::MAX,
            i32::MIN <= old(self).z * s <= i32::MAX,
            i32::MIN <= old(self).w * s <= i32::MAX,
        ensures
            final(self).x == old(self).x * s && final(self).y == old(self).y * s && final(self).z == old(self).z * s && final(self).w == old(self).w * s,
    {
        self.x = self.x * s;
        self.y = self.y * s;
        self.z = self.z * s;
        self.w = self.w * s;
    }

    /// Every component divided by `s`, rounding toward zero.
    pub fn div_scalar(self, s: i32) -> (r: Int4)
        requires
            s != 0,
            !(self.x == i32::MIN && s == -1),
            !(self.y == i32::MIN && s == -1),
            !(self.z == i32::MIN && s == -1),
            !(self.w == i32::MIN && s == -1),
        ensures
            r.x == trunc_div(self.x as int, s as int) && r.y == trunc_div(self.y as int, s as int) && r.z == trunc_div(self.z as int, s as int) && r.w == trunc_div(self.w as int, s as int),
    {
        Int4 { x: div_i32(self.x, s), y: div_i32(self.y, s), z: div_i32(self.z, s), w: div_i32(self.w, s) }
    }

    /// Divides every component of `self` by `s`, rounding toward zero.
    pub fn div_assign_scalar(&mut self, s: i32)
        requires
            s != 0,
            !(old(self).x == i32::MIN && s == -1),
            !(old(self).y == i32::MIN && s == -1),
            !(old(self).z == i32::MIN && s == -1),
            !(old(self).w == i32::MIN && s == -1),
        ensures
            final(self).x == trunc_div(old(self).x as int, s as int) && final(self).y == trunc_div(old(self).y as int, s as int) && final(self).z == trunc_div(old(self).z as int, s as int) && final(self).w == trunc_div(old(self).w as int, s as int),
    {
        self.x = div_i32(self.x, s);
        self.y = div_i32(self.y, s);
        self.z = div_i32(self.z, s);
        self.w = div_i32(self.w, s);
    }
}

} // verus!
