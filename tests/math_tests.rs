use rasterizer::framebuffer::{pack_rgb, source_row};
use rasterizer::mathi::{bool_to_int, clamp, index_to_xy, max, min, xy_to_index};
use rasterizer::numerics::int2::Int2;
use rasterizer::numerics::int3::Int3;
use rasterizer::numerics::int4::Int4;
use rasterizer::numerics::uint2::UInt2;
use rasterizer::numerics::uint3::UInt3;
use rasterizer::numerics::uint4::UInt4;

#[test]
fn index_to_xy_rows_and_columns() {
    assert_eq!(index_to_xy(5, 4, 3), UInt2::new(1, 1));
    assert_eq!(index_to_xy(11, 4, 3), UInt2::new(3, 2));
    assert_eq!(index_to_xy(0, 4, 3), UInt2::new(0, 0));
}

#[test]
fn xy_to_index_row_major() {
    assert_eq!(xy_to_index(1, 2, 4, 3), 9);
    assert_eq!(xy_to_index(0, 0, 4, 3), 0);
    assert_eq!(xy_to_index(3, 0, 4, 3), 3);
    assert_eq!(xy_to_index(0, 1, 4, 3), 4);
    assert_eq!(xy_to_index(3, 2, 4, 3), 11);
}

#[test]
fn index_round_trip() {
    for i in 0..12u32 {
        let p = index_to_xy(i, 4, 3);
        assert_eq!(xy_to_index(p.x, p.y, 4, 3), i);
    }
}

#[test]
fn integer_min_max_clamp() {
    assert_eq!(min(3, -2), -2);
    assert_eq!(max(3, -2), 3);
    assert_eq!(clamp(-5, 0, 9), 0);
    assert_eq!(clamp(15, 0, 9), 9);
    assert_eq!(clamp(4, 0, 9), 4);
    assert_eq!(bool_to_int(true), 1);
    assert_eq!(bool_to_int(false), 0);
}

#[test]
fn int2_arithmetic() {
    let a = Int2::new(3, -4);
    let b = Int2::new(-1, 10);
    assert_eq!(a.add(b), Int2::new(2, 6));
    assert_eq!(a.sub(b), Int2::new(4, -14));
    assert_eq!(a.add_scalar(2), Int2::new(5, -2));
    assert_eq!(Int2::scalar_sub(1, a), Int2::new(-2, 5));
    assert_eq!(a.mul_scalar(-3), Int2::new(-9, 12));
    assert_eq!(Int2::scalar_mul(2, b), Int2::new(-2, 20));
    let mut c = a;
    c.add_assign(b);
    c.mul_assign_scalar(2);
    assert_eq!(c, Int2::new(4, 12));
}

#[test]
fn signed_division_rounds_toward_zero() {
    assert_eq!(Int2::new(-7, 7).div_scalar(2), Int2::new(-3, 3));
    assert_eq!(Int3::new(-7, 7, 0).div_scalar(-2), Int3::new(3, -3, 0));
    let mut d = Int4::new(9, -9, 1, -1);
    d.div_assign_scalar(4);
    assert_eq!(d, Int4::new(2, -2, 0, 0));
}

#[test]
fn int3_and_int4_assignments() {
    let mut v = Int3::new(1, 2, 3);
    v.sub_assign(Int3::new(1, 1, 1));
    v.add_assign_scalar(10);
    v.sub_assign_scalar(1);
    assert_eq!(v, Int3::new(9, 10, 11));
    let w = Int4::scalar_add(1, Int4::new(0, 1, 2, 3));
    assert_eq!(w.sub_scalar(1), Int4::new(0, 1, 2, 3));
}

#[test]
fn unsigned_vectors() {
    let a = UInt3::new(10, 20, 30);
    assert_eq!(a.div_scalar(3), UInt3::new(3, 6, 10));
    assert_eq!(a.sub(UInt3::new(1, 2, 3)), UInt3::new(9, 18, 27));
    assert_eq!(UInt3::scalar_sub(30, a), UInt3::new(20, 10, 0));
    let mut b = UInt4::new(1, 2, 3, 4);
    b.mul_assign_scalar(5);
    b.div_assign_scalar(2);
    assert_eq!(b, UInt4::new(2, 5, 7, 10));
    assert_eq!(UInt2::default(), UInt2::new(0, 0));
    assert_eq!(UInt2::new(2, 3).add(UInt2::new(1, 1)), UInt2::new(3, 4));
}

#[test]
fn pixel_packing_and_row_flip() {
    assert_eq!(pack_rgb(0x12, 0x34, 0x56), 0x0012_3456);
    assert_eq!(pack_rgb(255, 255, 255), 0x00ff_ffff);
    assert_eq!(pack_rgb(0, 0, 0), 0);
    assert_eq!(source_row(0, 10), 9);
    assert_eq!(source_row(9, 10), 0);
}
