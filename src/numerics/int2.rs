//! A vector of two signed 32-bit integers, with checked component-wise arithmetic.

use vstd::prelude::*;

use super::{div_i32, trunc_div};

verus! {

#[derive(Copy, Clone, Debug, PartialEq, Eq, Structural)]
pub struct Int2 {
    pub x: i32,
    pub y: i32,
}

impl Int2 {
    /// The vector with the given components.
    pub fn new(x: i32, y: i32) -> (r: Int2)
        ensures
            r.x == x && r.y == y,
    {
        Int2 { x, y }
    }

    /// Component-wise sum of `self` and `rhs`.
    pub fn add(self, rhs: Int2) -> (r: Int2)
        requires
            i32::MIN <= self.x + rhs.x <= i32::MAX,
            i32::MIN <= self.y + rhs.y <= i32::MAX,
        ensures
            r.x == self.x + rhs.x && r.y == self.y + rhs.y,
    {
        Int2 { x: self.x + rhs.x, y: self.y + rhs.y }
    }

    /// Component-wise sum of `self` and `s` taken for every component.
    pub fn add_scalar(self, s: i32) -> (r: Int2)
        requires
            i32::MIN <= self.x + s <= i32::MAX,
            i32::MIN <= self.y + s <= i32::MAX,
        ensures
            r.x == self.x + s && r.y == self.y + s,
    {
        Int2 { x: self.x + s, y: self.y + s }
    }

    /// Component-wise sum of `s` taken for every component and `v`.
    pub fn scalar_add(s: i32, v: Int2) -> (r: Int2)
        requires
            i32::MIN <= s + v.x <= i32::MAX,
            i32::MIN <= s + v.y <= i32::MAX,
        ensures
            r.x == s + v.x && r.y == s + v.y,
    {
        Int2 { x: s + v.x, y: s + v.y }
    }

    /// Replaces `self` by the component-wise sum of `self` and `rhs`.
    pub fn add_assign(&mut self, rhs: Int2)
        requires
            i32::MIN <= old(self).x + rhs.x <= i32::MAX,
            i32::MIN <= old(self).y + rhs.y <= i32::MAX,
        ensures
            final(self).x == old(self).x + rhs.x && final(self).y == old(self).y + rhs.y,
    {
        self.x = self.x + rhs.x;
        self.y = self.y + rhs.y;
    }

    /// Replaces `self` by the component-wise sum of `self` and `s` taken for every component.
    pub fn add_assign_scalar(&mut self, s: i32)
        requires
            i32::MIN <= old(self).x + s <= i32::MAX,
            i32::MIN <= old(self).y + s <= i32::MAX,
        ensures
            final(self).x == old(self).x + s && final(self).y == old(self).y + s,
    {
        self.x = self.x + s;
        self.y = self.y + s;
    }

    /// Component-wise difference of `self` and `rhs`.
    pub fn sub(self, rhs: Int2) -> (r: Int2)
        requires
            i32::MIN <= self.x - rhs.x <= i32::MAX,
            i32::MIN <= self.y - rhs.y <= i32::MAX,
        ensures
            r.x == self.x - rhs.x && r.y == self.y - rhs.y,
    {
        Int2 { x: self.x - rhs.x, y: self.y - rhs.y }
    }

    /// Component-wise difference of `self` and `s` taken for every component.
    pub fn sub_scalar(self, s: i32) -> (r: Int2)
        requires
            i32::MIN <= self.x - s <= i32::MAX,
            i32::MIN <= self.y - s <= i32::MAX,
        ensures
            r.x == self.x - s && r.y == self.y - s,
    {
        Int2 { x: self.x - s, y: self.y - s }
    }

    /// Component-wise difference of `s` taken for every component and `v`.
    pub fn scalar_sub(s: i32, v: Int2) -> (r: Int2)
        requires
            i32::MIN <= s - v.x <= i32::MAX,
            i32::MIN <= s - v.y <= i32::MAX,
        ensures
            r.x == s - v.x && r.y == s - v.y,
    {
        Int2 { x: s - v.x, y: s - v.y }
    }

    /// Replaces `self` by the component-wise difference of `self` and `rhs`.
    pub fn sub_assign(&mut self, rhs: Int2)
        requires
            i32::MIN <= old(self).x - rhs.x <= i32::MAX,
            i32::MIN <= old(self).y - rhs.y <= i32::MAX,
        ensures
            final(self).x == old(self).x - rhs.x && final(self).y == old(self).y - rhs.y,
    {
        self.x = self.x - rhs.x;
        self.y = self.y - rhs.y;
    }

    /// Replaces `self` by the component-wise difference of `self` and `s` taken for every component.
    pub fn sub_assign_scalar(&mut self, s: i32)
        requires
            i32::MIN <= old(self).x - s <= i32::MAX,
            i32::MIN <= old(self).y - s <= i32::MAX,
        ensures
            final(self).x == old(self).x - s && final(self).y == old(self).y - s,
    {
        self.x = self.x - s;
        self.y = self.y - s;
    }

    /// Every component multiplied by `s`.
    pub fn mul_scalar(self, s: i32) -> (r: Int2)
        requires
            i32::MIN <= self.x * s <= i32::MAX,
            i32::MIN <= self.y * s <= i32::MAX,
        ensures
            r.x == self.x * s && r.y == self.y * s,
    {
        Int2 { x: self.x * s, y: self.y * s }
    }

    /// Every component of `v` multiplied by `s`.
    pub fn scalar_mul(s: i32, v: Int2) -> (r: Int2)
        requires
            i32::MIN <= s * v.x <= i32::MAX,
            i32::MIN <= s * v.y <= i32::MAX,
        ensures
            r.x == s * v.x && r.y == s * v.y,
    {
        Int2 { x: s * v.x, y: s * v.y }
    }

    /// Multiplies every component of `self` by `s`.
    pub fn mul_assign_scalar(&mut self, s: i32)
        requires
            i32::MIN <= old(self).x * s <= i32::MAX,
            i32::MIN <= old(self).y * s <= i32::MAX,
        ensures
            final(self).x == old(self).x * s && final(self).y == old(self).y * s,
    {
        self.x = self.x * s;
        self.y = self.y * s;
    }

    /// Every component divided by `s`, rounding toward zero.
    pub fn div_scalar(self, s: i32) -> (r: Int2)
        requires
            s != 0,
            !(self.x == i32::MIN && s == -1),
            !(self.y == i32::MIN && s == -1),
        ensures
            r.x == trunc_div(self.x as int, s as int) && r.y == trunc_div(self.y as int, s as int),
    {
        Int2 { x: div_i32(self.x, s), y: div_i32(self.y, s) }
    }

    /// Divides every component of `self` by `s`, rounding toward zero.
    pub fn div_assign_scalar(&mut self, s: i32)
        requires
            s != 0,
            !(old(self).x == i32::MIN && s == -1),
            !(old(self).y == i32::MIN && s == -1),
        ensures
            final(self).x == trunc_div(old(self).x as int, s as int) && final(self).y == trunc_div(old(self).y as int, s as int),
    {
        self.x = div_i32(self.x, s);
        self.y = div_i32(self.y, s);
    }
}

} // verus!
