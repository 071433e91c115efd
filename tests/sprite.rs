use cursor2d::geometry::{Frac, Rect, Vertex};
use cursor2d::sprite::Sprite;

fn vertex(x: i32, y: i32, z: i32, u: (i32, u32), v: (i32, u32)) -> Vertex<i32, i32> {
    Vertex {
        x,
        y,
        z,
        u: Frac { num: u.0, den: u.1 },
        v: Frac { num: v.0, den: v.1 },
    }
}

fn as_float(f: Frac) -> f64 {
    f.num as f64 / f.den as f64
}

#[test]
fn full_texture_quad_has_exact_positions_and_texcoords() {
    let mut s = Sprite::new(16, 32);
    s.set(Rect::new(0, 0, 16, 32), Rect::new(0, 0, 64, 48), 3);
    let vs = s.finish();
    assert_eq!(vs.len(), 6);
    let positions: Vec<(i32, i32, i32)> = vs.iter().map(|v| (v.x, v.y, v.z)).collect();
    assert_eq!(
        positions,
        vec![(0, 0, 3), (64, 0, 3), (64, 48, 3), (0, 0, 3), (0, 48, 3), (64, 48, 3)]
    );
    let texcoords: Vec<(f64, f64)> = vs.iter().map(|v| (as_float(v.u), as_float(v.v))).collect();
    assert_eq!(
        texcoords,
        vec![(0.0, 1.0), (1.0, 1.0), (1.0, 0.0), (0.0, 1.0), (0.0, 0.0), (1.0, 0.0)]
    );
}

#[test]
fn set_maps_source_texels_with_rows_inverted() {
    let mut s = Sprite::new(8, 4);
    s.set(Rect::new(2, 1, 6, 3), Rect::new(10, 20, 30, 40), -1);
    let vs = s.finish();
    assert_eq!(
        vs,
        vec![
            vertex(10, 20, -1, (2, 8), (3, 4)),
            vertex(30, 20, -1, (6, 8), (3, 4)),
            vertex(30, 40, -1, (6, 8), (1, 4)),
            vertex(10, 20, -1, (2, 8), (3, 4)),
            vertex(10, 40, -1, (2, 8), (1, 4)),
            vertex(30, 40, -1, (6, 8), (1, 4)),
        ]
    );
}

#[test]
fn texcoords_within_texture_lie_in_unit_range() {
    let mut s = Sprite::new(24, 24);
    s.set(Rect::new(0, 12, 24, 0), Rect::new(5, 5, 9, 9), 0);
    s.set(Rect::new(7, 3, 11, 19), Rect::new(-4, -4, 4, 4), 1);
    for v in s.finish() {
        for f in [v.u, v.v] {
            let x = as_float(f);
            assert!((0.0..=1.0).contains(&x));
        }
    }
}

#[test]
fn repeated_set_appends_six_per_call_in_order() {
    let mut s = Sprite::new(10, 10);
    let a = (Rect::new(0, 0, 5, 5), Rect::new(0, 0, 5, 5), 0);
    let b = (Rect::new(5, 5, 10, 10), Rect::new(100, 100, 150, 150), 2);
    let c = (Rect::new(1, 2, 3, 4), Rect::new(-1, -2, -3, -4), 7);

    let mut single = Vec::new();
    for (src, dst, z) in [a, b, c] {
        let mut one = Sprite::new(10, 10);
        one.set(src, dst, z);
        single.push(one.finish());
    }

    s.set(a.0, a.1, a.2);
    s.set(b.0, b.1, b.2);
    s.set(c.0, c.1, c.2);
    let vs = s.finish();
    assert_eq!(vs.len(), 18);
    assert_eq!(&vs[0..6], single[0].as_slice());
    assert_eq!(&vs[6..12], single[1].as_slice());
    assert_eq!(&vs[12..18], single[2].as_slice());
}

#[test]
fn finish_on_empty_builder_gives_no_vertices() {
    let s: Sprite<i32, i32> = Sprite::new(32, 32);
    assert!(s.finish().is_empty());
}

#[test]
fn inverted_destination_is_kept_as_given() {
    let mut s = Sprite::new(2, 2);
    s.set(Rect::new(2, 2, 0, 0), Rect::new(9, 9, 1, 1), 0);
    let vs = s.finish();
    assert_eq!(vs[0], vertex(9, 9, 0, (2, 2), (0, 2)));
    assert_eq!(vs[2], vertex(1, 1, 0, (0, 2), (2, 2)));
}

#[test]
fn positions_and_depth_pass_through_unchanged() {
    let mut s: Sprite<f32, f32> = Sprite::new(4, 4);
    s.set(Rect::new(0, 0, 4, 2), Rect::new(0.5, 1.25, 8.5, 9.75), 0.25);
    let vs = s.finish();
    let positions: Vec<(f32, f32, f32)> = vs.iter().map(|v| (v.x, v.y, v.z)).collect();
    assert_eq!(
        positions,
        vec![
            (0.5, 1.25, 0.25),
            (8.5, 1.25, 0.25),
            (8.5, 9.75, 0.25),
            (0.5, 1.25, 0.25),
            (0.5, 9.75, 0.25),
            (8.5, 9.75, 0.25),
        ]
    );
    assert_eq!(vs[0].v, Frac { num: 2, den: 4 });
    assert_eq!(vs[2].v, Frac { num: 0, den: 4 });
}
