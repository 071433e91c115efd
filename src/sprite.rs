use vstd::prelude::*;

use crate::geometry::{Frac, Rect, Vertex};

verus! {

/// The vertex at `(x, y, z)` with texture coordinate `(u, v)`.
pub open spec fn vertex_at<D, Z>(x: D, y: D, z: Z, u: Frac, v: Frac) -> Vertex<D, Z> {
    Vertex { x, y, z, u, v }
}

/// The six vertices, two triangles, that map `src` (in texels of a `w` by `h`
/// texture) onto `dst` at depth `z`.
///
/// The first triangle runs `(x1, y1) -> (x2, y1) -> (x2, y2)` over `dst`, the
/// second `(x1, y1) -> (x1, y2) -> (x2, y2)`. Texture rows are inverted against
/// position rows, so that a top-left origin destination shows a bottom-left
/// origin texture upright.
pub open spec fn quad<D, Z>(w: u32, h: u32, src: Rect<i32>, dst: Rect<D>, z: Z) -> Seq<Vertex<D, Z>> {
    let u1 = Frac { num: src.x1, den: w };
    let v1 = Frac { num: src.y1, den: h };
    let u2 = Frac { num: src.x2, den: w };
    let v2 = Frac { num: src.y2, den: h };
    seq![
        vertex_at(dst.x1, dst.y1, z, u1, v2),
        vertex_at(dst.x2, dst.y1, z, u2, v2),
        vertex_at(dst.x2, dst.y2, z, u2, v1),
        vertex_at(dst.x1, dst.y1, z, u1, v2),
        vertex_at(dst.x1, dst.y2, z, u1, v1),
        vertex_at(dst.x2, dst.y2, z, u2, v1),
    ]
}

/// Builds the vertex data of textured quads cut from a texture of fixed size.
///
/// Each `set` appends one quad; `finish` hands the whole sequence over and
/// consumes the builder.
pub struct Sprite<D, Z> {
    w: u32,
    h: u32,
    buf: Vec<Vertex<D, Z>>,
}

impl<D: Copy, Z: Copy> Sprite<D, Z> {
    /// Width of the source texture, in texels.
    pub closed spec fn width(&self) -> u32 {
        self.w
    }

    /// Height of the source texture, in texels.
    pub closed spec fn height(&self) -> u32 {
        self.h
    }

    /// The vertices appended so far, in order.
    pub closed spec fn vertices(&self) -> Seq<Vertex<D, Z>> {
        self.buf@
    }

    /// A builder for a texture of `w` by `h` texels, with no vertices yet.
    pub fn new(w: u32, h: u32) -> (r: Sprite<D, Z>)
        ensures
            r.width() == w,
            r.height() == h,
            r.vertices() == Seq::<Vertex<D, Z>>::empty(),
    {
        Sprite { w, h, buf: Vec::with_capacity(6) }
    }

    /// Appends the quad that maps `src` onto `dst` at depth `z`.
    pub fn set(&mut self, src: Rect<i32>, dst: Rect<D>, z: Z)
        ensures
            final(self).width() == old(self).width(),
            final(self).height() == old(self).height(),
            final(self).vertices() == old(self).vertices() + quad(
                old(self).width(),
                old(self).height(),
                src,
                dst,
                z,
            ),
    {
        let u1 = Frac { num: src.x1, den: self.w };
        let v1 = Frac { num: src.y1, den: self.h };
        let u2 = Frac { num: src.x2, den: self.w };
        let v2 = Frac { num: src.y2, den: self.h };
        self.buf.push(Vertex { x: dst.x1, y: dst.y1, z, u: u1, v: v2 });
        self.buf.push(Vertex { x: dst.x2, y: dst.y1, z, u: u2, v: v2 });
        self.buf.push(Vertex { x: dst.x2, y: dst.y2, z, u: u2, v: v1 });
        self.buf.push(Vertex { x: dst.x1, y: dst.y1, z, u: u1, v: v2 });
        self.buf.push(Vertex { x: dst.x1, y: dst.y2, z, u: u1, v: v1 });
        self.buf.push(Vertex { x: dst.x2, y: dst.y2, z, u: u2, v: v1 });
        assert(self.buf@ == old(self).buf@ + quad(self.w, self.h, src, dst, z));
    }

    /// Consumes the builder and returns its vertices in insertion order.
    pub fn finish(self) -> (r: Vec<Vertex<D, Z>>)
        ensures
            r@ == self.vertices(),
    {
        self.buf
    }
}

/// The vertices that `set` appends for each `(src, dst, z)` of `calls`, in
/// order, on a builder for a `w` by `h` texture.
pub open spec fn quads<D, Z>(w: u32, h: u32, calls: Seq<(Rect<i32>, Rect<D>, Z)>) -> Seq<Vertex<D, Z>>
    decreases calls.len(),
{
    if calls.len() == 0 {
        Seq::<Vertex<D, Z>>::empty()
    } else {
        let c = calls.last();
        quads(w, h, calls.drop_last()) + quad(w, h, c.0, c.1, c.2)
    }
}

/// Every texture coordinate of a quad lies in `[0, 1]` when the source
/// rectangle lies within the texture.
pub proof fn lemma_texcoords_in_unit<D, Z>(w: u32, h: u32, src: Rect<i32>, dst: Rect<D>, z: Z)
    requires
        0 < w,
        0 < h,
        src.within(w as int, h as int),
    ensures
        forall|i: int|
            0 <= i < 6 ==> (#[trigger] quad(w, h, src, dst, z)[i]).u.in_unit() && quad(
                w,
                h,
                src,
                dst,
                z,
            )[i].v.in_unit(),
{
}

/// A run of `set` calls appends six vertices per call, each call's quad in
/// call order, and leaves what was there before untouched.
pub proof fn lemma_quads_in_call_order<D, Z>(w: u32, h: u32, calls: Seq<(Rect<i32>, Rect<D>, Z)>)
    ensures
        quads(w, h, calls).len() == 6 * calls.len(),
        forall|k: int|
            0 <= k < calls.len() ==> #[trigger] quads(w, h, calls).subrange(6 * k, 6 * k + 6)
                == quad(w, h, calls[k].0, calls[k].1, calls[k].2),
        forall|start: Seq<Vertex<D, Z>>| #[trigger]
            (start + quads(w, h, calls)).subrange(0, start.len() as int) == start,
    decreases calls.len(),
{
    if calls.len() > 0 {
        let prev = calls.drop_last();
        lemma_quads_in_call_order(w, h, prev);
        let c = calls.last();
        let q = quad(w, h, c.0, c.1, c.2);
        let all = quads(w, h, calls);
        assert(all == quads(w, h, prev) + q);
        assert forall|k: int| 0 <= k < calls.len() implies #[trigger] all.subrange(6 * k, 6 * k + 6)
            == quad(w, h, calls[k].0, calls[k].1, calls[k].2) by {
            if k < prev.len() {
                assert(prev[k] == calls[k]);
                assert(all.subrange(6 * k, 6 * k + 6) =~= quads(w, h, prev).subrange(6 * k, 6 * k + 6));
            } else {
                assert(all.subrange(6 * k, 6 * k + 6) =~= q);
            }
        }
    }
    assert forall|start: Seq<Vertex<D, Z>>| #[trigger]
        (start + quads(w, h, calls)).subrange(0, start.len() as int) == start by {
        assert((start + quads(w, h, calls)).subrange(0, start.len() as int) =~= start);
    }
}

/// The quad that maps a whole `w` by `h` texture onto the rectangle from
/// `(o, o)` to `(dw, dh)` at depth `d`, where `o` is the origin coordinate:
/// positions `(o,o) (dw,o) (dw,dh) (o,o) (o,dh) (dw,dh)`, all at depth `d`,
/// and texture coordinates `(0,1) (1,1) (1,0) (0,1) (0,0) (1,0)`.
pub proof fn lemma_full_texture_quad<D, Z>(w: u32, h: u32, o: D, dw: D, dh: D, d: Z)
    requires
        0 < w,
        0 < h,
        w as int <= i32::MAX,
        h as int <= i32::MAX,
    ensures
        ({
            let q = quad(
                w,
                h,
                Rect { x1: 0, y1: 0, x2: w as i32, y2: h as i32 },
                Rect { x1: o, y1: o, x2: dw, y2: dh },
                d,
            );
            &&& q.len() == 6
            &&& q[0].x == o && q[0].y == o && q[0].z == d
            &&& q[1].x == dw && q[1].y == o && q[1].z == d
            &&& q[2].x == dw && q[2].y == dh && q[2].z == d
            &&& q[3].x == o && q[3].y == o && q[3].z == d
            &&& q[4].x == o && q[4].y == dh && q[4].z == d
            &&& q[5].x == dw && q[5].y == dh && q[5].z == d
            &&& q[0].u.equals(0, 1) && q[0].v.equals(1, 1)
            &&& q[1].u.equals(1, 1) && q[1].v.equals(1, 1)
            &&& q[2].u.equals(1, 1) && q[2].v.equals(0, 1)
            &&& q[3].u.equals(0, 1) && q[3].v.equals(1, 1)
            &&& q[4].u.equals(0, 1) && q[4].v.equals(0, 1)
            &&& q[5].u.equals(1, 1) && q[5].v.equals(0, 1)
        }),
{
}

} // verus!
