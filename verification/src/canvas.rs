use vstd::prelude::*;

verus! {

/// The byte offset of pixel `(px, py)` in a row-major RGBA buffer of
/// width `w`.
pub open spec fn pixel_index(w: int, px: int, py: int) -> int {
    4 * (py * w + px)
}

/// The four RGBA bytes of pixel `(px, py)` in a row-major buffer of
/// width `w`.
pub open spec fn pixel_at(data: Seq<u8>, w: int, px: int, py: int) -> Seq<u8> {
    data.subrange(pixel_index(w, px, py), pixel_index(w, px, py) + 4)
}

/// Source-over blending of one color channel: the source weighted by its
/// alpha plus the destination weighted by the remainder, rounded.
pub open spec fn blend_channel(s: int, d: int, a: int) -> int {
    (s * a + d * (255 - a) + 127) / 255
}

/// Source-over blending of the alpha channel, rounded.
pub open spec fn blend_alpha(s: int, d: int) -> int {
    s + (d * (255 - s) + 127) / 255
}

/// Source-over blending of one RGBA pixel onto another.
pub open spec fn blend_pixel(dst: Seq<u8>, src: Seq<u8>) -> Seq<u8>
    recommends
        dst.len() == 4,
        src.len() == 4,
{
    seq![
        blend_channel(src[0] as int, dst[0] as int, src[3] as int) as u8,
        blend_channel(src[1] as int, dst[1] as int, src[3] as int) as u8,
        blend_channel(src[2] as int, dst[2] as int, src[3] as int) as u8,
        blend_alpha(src[3] as int, dst[3] as int) as u8,
    ]
}

/// The shared pixel buffer a run composites into: `width * height` RGBA
/// pixels, row-major, zero-initialized (fully transparent) at creation.
pub struct Canvas {
    /// Width in pixels.
    pub width: u32,
    /// Height in pixels.
    pub height: u32,
    /// The raw bytes: four per pixel, row-major.
    pub data: Vec<u8>,
}

impl Canvas {
    /// A canvas is well formed when its buffer holds exactly four bytes
    /// per pixel.
    pub open spec fn wf(self) -> bool {
        self.data@.len() == 4 * self.width * self.height
    }

    /// The four RGBA bytes of pixel `(px, py)`.
    pub open spec fn spec_pixel(self, px: int, py: int) -> Seq<u8> {
        pixel_at(self.data@, self.width as int, px, py)
    }

    /// Creates a zeroed, fully transparent canvas of the given size.
    pub fn new(width: u32, height: u32) -> (r: Canvas)
        requires
            4 * width * height <= usize::MAX,
        ensures
            r.wf(),
            r.width == width,
            r.height == height,
            forall|i: int| 0 <= i < r.data@.len() ==> r.data@[i] == 0u8,
    {
        proof {
            assert(4 * (width as int) * (height as int) == 4 * ((width as int) * (height as int)))
                by (nonlinear_arith);
        }
        let n: usize = 4usize * ((width as u64 * height as u64) as usize);
        let mut data: Vec<u8> = Vec::new();
        let mut i: usize = 0;
        while i < n
            invariant
                i <= n,
                data@.len() == i,
                forall|j: int| 0 <= j < i ==> data@[j] == 0u8,
            decreases n - i,
        {
            data.push(0u8);
            i = i + 1;
        }
        Canvas { width, height, data }
    }
}

/// Channel blending stays within one byte.
proof fn lemma_blend_channel_bounds(s: int, d: int, a: int)
    requires
        0 <= s <= 255,
        0 <= d <= 255,
        0 <= a <= 255,
    ensures
        0 <= blend_channel(s, d, a) <= 255,
{
    assert(0 <= s * a + d * (255 - a) + 127 <= 65152) by (nonlinear_arith)
        requires
            0 <= s <= 255,
            0 <= d <= 255,
            0 <= a <= 255,
    ;
}

/// Alpha blending stays within one byte.
proof fn lemma_blend_alpha_bounds(s: int, d: int)
    requires
        0 <= s <= 255,
        0 <= d <= 255,
    ensures
        0 <= blend_alpha(s, d) <= 255,
{
    assert(0 <= d * (255 - s) <= 255 * (255 - s)) by (nonlinear_arith)
        requires
            0 <= s <= 255,
            0 <= d <= 255,
    ;
    vstd::arithmetic::div_mod::lemma_div_is_ordered(
        d * (255 - s) + 127,
        255 * (255 - s) + 127,
        255,
    );
    assert((255 * (255 - s) + 127) / 255 == 255 - s);
}

/// Blends one color channel in integer arithmetic.
fn blend_channel_exec(s: u8, d: u8, a: u8) -> (r: u8)
    ensures
        r as int == blend_channel(s as int, d as int, a as int),
{
    proof {
        lemma_blend_channel_bounds(s as int, d as int, a as int);
        assert(0 <= (s as int) * (a as int) <= 65025 && 0 <= (d as int) * (255 - (a as int))
            <= 65025) by (nonlinear_arith)
            requires
                s <= 255u8,
                d <= 255u8,
                a <= 255u8,
        ;
    }
    let num: u32 = (s as u32) * (a as u32) + (d as u32) * (255u32 - (a as u32)) + 127u32;
    (num / 255u32) as u8
}

/// Blends the alpha channel in integer arithmetic.
fn blend_alpha_exec(s: u8, d: u8) -> (r: u8)
    ensures
        r as int == blend_alpha(s as int, d as int),
{
    proof {
        lemma_blend_alpha_bounds(s as int, d as int);
        assert(0 <= (d as int) * (255 - (s as int)) <= 65025) by (nonlinear_arith)
            requires
                s <= 255u8,
                d <= 255u8,
        ;
    }
    let num: u32 = (d as u32) * (255u32 - (s as u32)) + 127u32;
    s + (num / 255u32) as u8
}

/// A pixel inside the buffer owns bytes strictly inside the buffer.
pub proof fn lemma_pixel_index_bounds(w: int, h: int, px: int, py: int)
    requires
        0 <= px < w,
        0 <= py < h,
    ensures
        0 <= pixel_index(w, px, py),
        pixel_index(w, px, py) + 4 <= 4 * w * h,
        0 <= py * w + px,
        py * w + px + 1 <= w * h,
        4 * (w * h) == 4 * w * h,
{
    assert(0 <= py * w + px && py * w + px + 1 <= w * h) by (nonlinear_arith)
        requires
            0 <= px < w,
            0 <= py < h,
    ;
    assert(4 * (w * h) == 4 * w * h) by (nonlinear_arith);
}

/// Distinct pixels own disjoint byte ranges.
pub proof fn lemma_pixel_index_disjoint(w: int, px1: int, py1: int, px2: int, py2: int)
    requires
        0 <= px1 < w,
        0 <= px2 < w,
        0 <= py1,
        0 <= py2,
        !(px1 == px2 && py1 == py2),
    ensures
        pixel_index(w, px1, py1) + 4 <= pixel_index(w, px2, py2) || pixel_index(w, px2, py2) + 4
            <= pixel_index(w, px1, py1),
{
    if py1 < py2 {
        assert(py1 * w + px1 + 1 <= py2 * w + px2) by (nonlinear_arith)
            requires
                0 <= px1 < w,
                0 <= px2,
                py1 < py2,
        ;
    } else if py2 < py1 {
        assert(py2 * w + px2 + 1 <= py1 * w + px1) by (nonlinear_arith)
            requires
                0 <= px2 < w,
                0 <= px1,
                py2 < py1,
        ;
    }
}

/// Reads the four bytes of pixel `(x, y)` from a row-major RGBA buffer.
fn read_pixel(data: &Vec<u8>, w: u32, h: u32, x: u32, y: u32) -> (r: (u8, u8, u8, u8))
    requires
        data@.len() == 4 * w * h,
        x < w,
        y < h,
    ensures
        seq![r.0, r.1, r.2, r.3] == pixel_at(data@, w as int, x as int, y as int),
{
    proof {
        lemma_pixel_index_bounds(w as int, h as int, x as int, y as int);
    }
    // Taking the length as a usize bounds the index arithmetic below by
    // the machine word.
    let total: usize = data.len();
    let base: usize = 4 * ((y as usize) * (w as usize) + (x as usize));
    let r = (data[base], data[base + 1], data[base + 2], data[base + 3]);
    proof {
        assert(seq![r.0, r.1, r.2, r.3] =~= pixel_at(data@, w as int, x as int, y as int));
    }
    r
}

impl Canvas {
    /// Blends the source pixel `sp` over the canvas pixel `(dx, dy)`; no
    /// other pixel changes.
    fn blend_pixel_into(&mut self, dx: u32, dy: u32, sp: (u8, u8, u8, u8))
        requires
            old(self).wf(),
            dx < old(self).width,
            dy < old(self).height,
        ensures
            final(self).wf(),
            final(self).width == old(self).width,
            final(self).height == old(self).height,
            final(self).spec_pixel(dx as int, dy as int) == blend_pixel(
                old(self).spec_pixel(dx as int, dy as int),
                seq![sp.0, sp.1, sp.2, sp.3],
            ),
            forall|px: int, py: int|
                0 <= px < old(self).width && 0 <= py < old(self).height && !(px == dx && py == dy)
                    ==> final(self).spec_pixel(px, py) == old(self).spec_pixel(px, py),
    {
        proof {
            lemma_pixel_index_bounds(
                self.width as int,
                self.height as int,
                dx as int,
                dy as int,
            );
        }
        let ghost orig: Seq<u8> = self.data@;
        // Taking the length as a usize bounds the index arithmetic below
        // by the machine word.
        let total: usize = self.data.len();
        let base: usize = 4 * ((dy as usize) * (self.width as usize) + (dx as usize));
        let d0 = self.data[base];
        let d1 = self.data[base + 1];
        let d2 = self.data[base + 2];
        let d3 = self.data[base + 3];
        let a = sp.3;
        let r0 = blend_channel_exec(sp.0, d0, a);
        let r1 = blend_channel_exec(sp.1, d1, a);
        let r2 = blend_channel_exec(sp.2, d2, a);
        let r3 = blend_alpha_exec(a, d3);
        self.data[base] = r0;
        self.data[base + 1] = r1;
        self.data[base + 2] = r2;
        self.data[base + 3] = r3;
        proof {
            let w = self.width as int;
            let h = self.height as int;
            let bi = pixel_index(w, dx as int, dy as int);
            assert(seq![d0, d1, d2, d3] =~= pixel_at(orig, w, dx as int, dy as int));
            assert(self.spec_pixel(dx as int, dy as int) =~= seq![r0, r1, r2, r3]);
            lemma_blend_channel_bounds(sp.0 as int, d0 as int, a as int);
            lemma_blend_channel_bounds(sp.1 as int, d1 as int, a as int);
            lemma_blend_channel_bounds(sp.2 as int, d2 as int, a as int);
            lemma_blend_alpha_bounds(a as int, d3 as int);
            assert(self.spec_pixel(dx as int, dy as int) =~= blend_pixel(
                pixel_at(orig, w, dx as int, dy as int),
                seq![sp.0, sp.1, sp.2, sp.3],
            ));
            assert forall|px: int, py: int|
                0 <= px < old(self).width && 0 <= py < old(self).height && !(px == dx && py
                    == dy) implies self.spec_pixel(px, py) == old(self).spec_pixel(
                px,
                py,
            ) by {
                lemma_pixel_index_disjoint(w, px, py, dx as int, dy as int);
                lemma_pixel_index_bounds(w, h, px, py);
                assert(self.spec_pixel(px, py) =~= old(self).spec_pixel(px, py));
            }
        }
    }
}

/// Whether canvas point `(px, py)` lies under a source of size
/// `(sw, sh)` overlaid with its top-left corner at `(ox, oy)`.
pub open spec fn covered(ox: int, oy: int, sw: int, sh: int, px: int, py: int) -> bool {
    &&& ox <= px < ox + sw
    &&& oy <= py < oy + sh
}

impl Canvas {
    /// The Compositing Engine's overlay: blends the RGBA source buffer,
    /// source-over-destination, with its top-left corner at `(ox, oy)`
    /// (either may be negative or past the canvas edge). Whatever the
    /// geometry, only canvas pixels under the source change: everything
    /// outside the canvas's own bounds is clipped, never written.
    pub fn overlay(&mut self, src: &Vec<u8>, sw: u32, sh: u32, ox: i64, oy: i64)
        requires
            old(self).wf(),
            src@.len() == 4 * sw * sh,
            ox + sw <= i64::MAX,
            oy + sh <= i64::MAX,
        ensures
            final(self).wf(),
            final(self).width == old(self).width,
            final(self).height == old(self).height,
            forall|px: int, py: int|
                0 <= px < old(self).width && 0 <= py < old(self).height && covered(
                    ox as int,
                    oy as int,
                    sw as int,
                    sh as int,
                    px,
                    py,
                ) ==> final(self).spec_pixel(px, py) == blend_pixel(
                    old(self).spec_pixel(px, py),
                    pixel_at(src@, sw as int, px - ox, py - oy),
                ),
            forall|px: int, py: int|
                0 <= px < old(self).width && 0 <= py < old(self).height && !covered(
                    ox as int,
                    oy as int,
                    sw as int,
                    sh as int,
                    px,
                    py,
                ) ==> final(self).spec_pixel(px, py) == old(self).spec_pixel(px, py),
    {
        let ghost orig: Seq<u8> = self.data@;
        let ghost w = self.width as int;
        let ghost h = self.height as int;
        let mut sy: u32 = 0;
        while sy < sh
            invariant
                self.wf(),
                self.width == old(self).width,
                self.height == old(self).height,
                src@.len() == 4 * sw * sh,
                ox + sw <= i64::MAX,
                oy + sh <= i64::MAX,
                sy <= sh,
                w == old(self).width as int,
                h == old(self).height as int,
                orig == old(self).data@,
                forall|px: int, py: int|
                    0 <= px < w && 0 <= py < h && covered(ox as int, oy as int, sw as int, sh as int, px, py)
                        && py - oy < sy ==> self.spec_pixel(px, py) == blend_pixel(
                        pixel_at(orig, w, px, py),
                        pixel_at(src@, sw as int, px - ox, py - oy),
                    ),
                forall|px: int, py: int|
                    0 <= px < w && 0 <= py < h && !(covered(ox as int, oy as int, sw as int, sh as int, px, py)
                        && py - oy < sy) ==> self.spec_pixel(px, py) == pixel_at(orig, w, px, py),
            decreases sh - sy,
        {
            let dy: i64 = oy + sy as i64;
            if 0 <= dy && dy < self.height as i64 {
                let mut sx: u32 = 0;
                while sx < sw
                    invariant
                        self.wf(),
                        self.width == old(self).width,
                        self.height == old(self).height,
                        src@.len() == 4 * sw * sh,
                        ox + sw <= i64::MAX,
                        oy + sh <= i64::MAX,
                        sy < sh,
                        sx <= sw,
                        dy == oy + sy,
                        0 <= dy < h,
                        w == old(self).width as int,
                        h == old(self).height as int,
                        orig == old(self).data@,
                        forall|px: int, py: int|
                            0 <= px < w && 0 <= py < h && covered(ox as int, oy as int, sw as int, sh as int, px, py)
                                && (py - oy < sy || (py - oy == sy && px - ox < sx))
                                ==> self.spec_pixel(px, py) == blend_pixel(
                                pixel_at(orig, w, px, py),
                                pixel_at(src@, sw as int, px - ox, py - oy),
                            ),
                        forall|px: int, py: int|
                            0 <= px < w && 0 <= py < h && !(covered(ox as int, oy as int, sw as int, sh as int, px, py)
                                && (py - oy < sy || (py - oy == sy && px - ox < sx)))
                                ==> self.spec_pixel(px, py) == pixel_at(orig, w, px, py),
                    decreases sw - sx,
                {
                    let dx: i64 = ox + sx as i64;
                    if 0 <= dx && dx < self.width as i64 {
                        let sp = read_pixel(src, sw, sh, sx, sy);
                        self.blend_pixel_into(dx as u32, dy as u32, sp);
                    }
                    sx = sx + 1;
                }
            }
            sy = sy + 1;
        }
    }
}

} // verus!
