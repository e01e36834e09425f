use rasterizer::clipping::{clip_triangle, ClipCorner};
use rasterizer::input::InputState;
use rasterizer::raster::{line_walk, pixel_block, PixelBlock, LINE_COORD_LIMIT};
use rasterizer::render_target::{RenderTarget, FAR_DEPTH};
use rasterizer::resource_helper::{fan_triangulate, split_by_line};
use rasterizer::scan::scan_block;

type Rgba = [f32; 4];

const BLACK: Rgba = [0.0, 0.0, 0.0, 0.0];
const WHITE: Rgba = [1.0, 1.0, 1.0, 1.0];
const NEAR_CLIP_DST: f32 = 0.01;

fn key(depth: f32) -> u32 {
    depth.to_bits()
}

#[test]
fn far_depth_is_infinity() {
    assert_eq!(f32::INFINITY.to_bits(), FAR_DEPTH);
    assert!(key(1.0e30) < FAR_DEPTH);
    assert!(key(0.5) < key(0.75));
}

#[test]
fn clear_leaves_every_pixel_cleared() {
    let mut t: RenderTarget<Rgba> = RenderTarget::new(5, 4, BLACK);
    t.set_pixel(2, 3, WHITE, key(1.0));
    let color = [0.2, 0.4, 0.6, 1.0];
    t.clear(color);
    for y in 0..4 {
        for x in 0..5 {
            assert_eq!(t.get_pixel_color(x, y), color);
            assert_eq!(f32::from_bits(t.get_pixel_depth(x, y)), f32::INFINITY);
        }
    }
    assert_eq!(t.color_buffer().len(), 20);
    assert_eq!((t.width(), t.height()), (5, 4));
}

#[test]
fn nearer_fragment_wins_in_either_order() {
    let red = [1.0, 0.0, 0.0, 1.0];
    let blue = [0.0, 0.0, 1.0, 1.0];
    let (d1, d2) = (key(2.0), key(3.5));

    let mut a: RenderTarget<Rgba> = RenderTarget::new(4, 4, BLACK);
    assert!(a.write_fragment(1, 2, red, d1));
    assert!(!a.write_fragment(1, 2, blue, d2));

    let mut b: RenderTarget<Rgba> = RenderTarget::new(4, 4, BLACK);
    assert!(b.write_fragment(1, 2, blue, d2));
    assert!(b.write_fragment(1, 2, red, d1));

    for t in [&a, &b] {
        assert_eq!(t.get_pixel_depth(1, 2), d1);
        assert_eq!(t.get_pixel_color(1, 2), red);
        assert_eq!(t.get_pixel_depth(0, 0), FAR_DEPTH);
    }
}

#[test]
fn equal_depth_keeps_first_fragment() {
    let mut t: RenderTarget<Rgba> = RenderTarget::new(2, 2, BLACK);
    assert!(t.write_fragment(0, 1, WHITE, key(1.0)));
    assert!(!t.depth_passes(0, 1, key(1.0)));
    assert!(!t.write_fragment(0, 1, BLACK, key(1.0)));
    assert_eq!(t.get_pixel_color(0, 1), WHITE);
}

#[test]
fn set_pixel_overwrites_depth_unconditionally() {
    let mut t: RenderTarget<Rgba> = RenderTarget::new(2, 2, BLACK);
    t.set_pixel(1, 1, WHITE, key(1.0));
    t.set_pixel(1, 1, BLACK, key(9.0));
    assert_eq!(t.get_pixel_depth(1, 1), key(9.0));
    assert_eq!(t.get_pixel_color(1, 1), BLACK);
}

fn edge(a: (f32, f32), b: (f32, f32), p: (f32, f32)) -> f32 {
    (p.0 - a.0) * (b.1 - a.1) + (p.1 - a.1) * (a.0 - b.0)
}

#[test]
fn single_white_triangle() {
    let (a, b, c) = ((100.0f32, 100.0f32), (200.0f32, 100.0f32), (150.0f32, 50.0f32));
    let mut t: RenderTarget<Rgba> = RenderTarget::new(256, 256, BLACK);
    t.clear(BLACK);
    let block = pixel_block(100, 50, 200, 100, 256, 256);
    assert_eq!(block, PixelBlock { start_x: 100, start_y: 50, end_x: 200, end_y: 100 });
    let depth = 3.0f32;
    let cover = |x: i32, y: i32| -> Option<(u32, ())> {
        let p = (x as f32 + 0.5, y as f32 + 0.5);
        let (ab, bc, ca) = (edge(a, b, p), edge(b, c, p), edge(c, a, p));
        if ab >= 0.0 && bc >= 0.0 && ca >= 0.0 && ab + bc + ca > 0.0 {
            Some((depth.to_bits(), ()))
        } else {
            None
        }
    };
    let shade = |_: (), _: Rgba| -> Option<Rgba> { Some(WHITE) };
    scan_block(&mut t, block, &cover, &shade);

    let mut inside = 0;
    for y in 0..256u32 {
        for x in 0..256u32 {
            let p = (x as f32 + 0.5, y as f32 + 0.5);
            let strictly = edge(a, b, p) > 0.0 && edge(b, c, p) > 0.0 && edge(c, a, p) > 0.0;
            let d = f32::from_bits(t.get_pixel_depth(x, y));
            assert!(!d.is_nan() && d >= 0.0);
            if strictly {
                inside += 1;
                assert_eq!(t.get_pixel_color(x, y), WHITE);
                assert!(d.is_finite());
            } else if !(100..=200).contains(&x) || !(50..=100).contains(&y) || cover(x as i32, y as i32).is_none() {
                assert_eq!(t.get_pixel_color(x, y), BLACK);
                assert_eq!(d, f32::INFINITY);
            }
        }
    }
    assert!(inside > 2000);
}

#[test]
fn scan_skips_fragments_shading_declines() {
    let mut t: RenderTarget<Rgba> = RenderTarget::new(8, 8, BLACK);
    let block = pixel_block(-3, -3, 20, 20, 8, 8);
    assert_eq!(block, PixelBlock { start_x: 0, start_y: 0, end_x: 7, end_y: 7 });
    let cover = |x: i32, _y: i32| -> Option<(u32, i32)> { Some((1.0f32.to_bits(), x)) };
    let shade = |x: i32, _dst: Rgba| -> Option<Rgba> { if x % 2 == 0 { Some(WHITE) } else { None } };
    scan_block(&mut t, block, &cover, &shade);
    assert_eq!(t.get_pixel_color(2, 5), WHITE);
    assert_eq!(t.get_pixel_color(3, 5), BLACK);
    assert_eq!(t.get_pixel_depth(3, 5), FAR_DEPTH);
}

#[test]
fn scan_of_empty_block_changes_nothing() {
    let mut t: RenderTarget<Rgba> = RenderTarget::new(4, 4, BLACK);
    let block = PixelBlock { start_x: 3, start_y: 0, end_x: 1, end_y: 3 };
    let cover = |_x: i32, _y: i32| -> Option<(u32, ())> { Some((0, ())) };
    let shade = |_: (), _: Rgba| -> Option<Rgba> { Some(WHITE) };
    scan_block(&mut t, block, &cover, &shade);
    assert_eq!(t.get_pixel_color(2, 2), BLACK);
}

fn lerp(a: [f32; 3], b: [f32; 3], t: f32) -> [f32; 3] {
    [a[0] + (b[0] - a[0]) * t, a[1] + (b[1] - a[1]) * t, a[2] + (b[2] - a[2]) * t]
}

fn corner_point(c: ClipCorner, v: &[[f32; 3]; 3]) -> [f32; 3] {
    match c {
        ClipCorner::Vertex { index } => v[index],
        ClipCorner::Crossing { from, to } => {
            let t = (NEAR_CLIP_DST - v[from][2]) / (v[to][2] - v[from][2]);
            lerp(v[from], v[to], t.clamp(0.0, 1.0))
        }
    }
}

#[test]
fn one_vertex_behind_camera_gives_two_triangles() {
    let v = [[0.0, 1.0, -1.0], [-1.0, 0.0, 5.0], [1.0, 0.0, 5.0]];
    let flags: Vec<bool> = v.iter().map(|p| p[2] <= NEAR_CLIP_DST).collect();
    let corners = clip_triangle(flags[0], flags[1], flags[2]);
    assert_eq!(corners.len(), 6);
    assert_eq!(
        corners,
        vec![
            ClipCorner::Crossing { from: 0, to: 2 },
            ClipCorner::Crossing { from: 0, to: 1 },
            ClipCorner::Vertex { index: 2 },
            ClipCorner::Crossing { from: 0, to: 1 },
            ClipCorner::Vertex { index: 1 },
            ClipCorner::Vertex { index: 2 },
        ]
    );
    for c in corners {
        assert!(corner_point(c, &v)[2] >= NEAR_CLIP_DST - 1.0e-6);
    }
}

#[test]
fn two_vertices_behind_give_one_triangle() {
    let corners = clip_triangle(true, false, true);
    assert_eq!(
        corners,
        vec![
            ClipCorner::Crossing { from: 1, to: 0 },
            ClipCorner::Vertex { index: 1 },
            ClipCorner::Crossing { from: 1, to: 2 },
        ]
    );
}

#[test]
fn clip_of_unclipped_and_fully_clipped() {
    assert_eq!(
        clip_triangle(false, false, false),
        vec![ClipCorner::Vertex { index: 0 }, ClipCorner::Vertex { index: 1 }, ClipCorner::Vertex { index: 2 }]
    );
    assert!(clip_triangle(true, true, true).is_empty());
}

#[test]
fn clipped_quad_area_is_kept() {
    let v = [[0.0, 2.0, -1.0], [-2.0, 0.0, 3.0], [2.0, 0.0, 3.0]];
    let corners = clip_triangle(true, false, false);
    let pts: Vec<[f32; 3]> = corners.iter().map(|c| corner_point(*c, &v)).collect();
    let area = |a: [f32; 3], b: [f32; 3], c: [f32; 3]| ((b[0] - a[0]) * (c[1] - a[1]) - (c[0] - a[0]) * (b[1] - a[1])).abs() / 2.0;
    let total = area(pts[0], pts[1], pts[2]) + area(pts[3], pts[4], pts[5]);
    // The quadrilateral between the near-plane cut and the edge at z = 3.
    let cut = lerp(v[0], v[1], (NEAR_CLIP_DST + 1.0) / 4.0);
    let cut2 = lerp(v[0], v[2], (NEAR_CLIP_DST + 1.0) / 4.0);
    let expected = ((cut2[0] - cut[0]) + 4.0) / 2.0 * cut[1];
    assert!((total - expected).abs() < 1.0e-4);
}

#[test]
fn line_walks() {
    let pts = |v: Vec<rasterizer::numerics::int2::Int2>| v.iter().map(|p| (p.x, p.y)).collect::<Vec<_>>();
    assert_eq!(pts(line_walk(0, 0, 3, 0)), vec![(0, 0), (1, 0), (2, 0), (3, 0)]);
    assert_eq!(pts(line_walk(2, 2, 2, 2)), vec![(2, 2)]);
    assert_eq!(pts(line_walk(0, 0, -2, -2)), vec![(0, 0), (-1, -1), (-2, -2)]);
    assert_eq!(pts(line_walk(0, 0, 1, 3)), vec![(0, 0), (0, 1), (1, 2), (1, 3)]);
    let long = line_walk(-5, 7, 40, -12);
    assert_eq!(long.len(), 46);
    assert_eq!((long[45].x, long[45].y), (40, -12));
    let edge = 1 << 29;
    assert_eq!(LINE_COORD_LIMIT, edge);
    assert_eq!(pts(line_walk(edge, -edge, edge - 3, -edge + 1)), vec![(edge, -edge), (edge - 1, -edge), (edge - 2, -edge + 1), (edge - 3, -edge + 1)]);
}

#[test]
fn lines_split_and_filter() {
    let text = "v 1 2 3\r\nvn 0 1 0\n\nf 1 2 3\n";
    assert_eq!(split_by_line(text, false), vec!["v 1 2 3", "vn 0 1 0", "", "f 1 2 3"]);
    assert_eq!(split_by_line(text, true), vec!["v 1 2 3", "vn 0 1 0", "f 1 2 3"]);
    assert!(split_by_line("", false).is_empty());
    assert_eq!(split_by_line("\n", false), vec![""]);
    assert_eq!(split_by_line("a\rb", true), vec!["a\rb"]);
    assert_eq!(split_by_line("foo\r\nbar\n\nbaz\r", false), vec!["foo", "bar", "", "baz\r"]);
}

#[test]
fn faces_fan_out_from_first_corner() {
    let mut indices = vec![7];
    fan_triangulate(&vec![0, 1, 2, 3, 4], &mut indices);
    assert_eq!(indices, vec![7, 0, 1, 2, 0, 2, 3, 0, 3, 4]);
    let mut none: Vec<u32> = Vec::new();
    fan_triangulate(&vec![5, 6], &mut none);
    assert!(none.is_empty());
}

#[test]
fn keys_go_down_and_up() {
    let mut input = InputState::new(3);
    input.update(&vec![true, false, false]);
    assert!(input.is_pressed(0) && input.is_down(0) && !input.is_up(0));
    input.update(&vec![true, true, false]);
    assert!(input.is_pressed(0) && !input.is_down(0));
    assert!(input.is_down(1));
    input.update(&vec![false, true, false]);
    assert!(input.is_up(0) && !input.is_pressed(0));
    assert!(!input.is_down(2) && !input.is_up(2));
}
