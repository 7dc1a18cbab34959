use vstd::prelude::*;

use crate::canvas::{blend_pixel, pixel_at, Canvas};
use crate::config::PosterConfig;
use crate::config::RunMode;
use crate::layout::{in_slot, plan_layout, spec_layout, PlacementSlot, Scheduled, SourceItem};

verus! {

/// One decoded source image: its dimensions and its raw RGBA bytes,
/// row-major, four bytes per pixel.
pub struct DecodedImage {
    /// Width in pixels; positive.
    pub width: u32,
    /// Height in pixels; positive.
    pub height: u32,
    /// The decoded RGBA bytes.
    pub pixels: Vec<u8>,
}

impl DecodedImage {
    /// A decoded image has positive dimensions and four bytes per pixel.
    pub open spec fn wf(self) -> bool {
        &&& self.pixels@.len() == 4 * self.width * self.height
        &&& self.width >= 1
        &&& self.height >= 1
    }
}

/// One entry of the image stream handed to a run: a decoded image, or the
/// record of a decode failure (which consumes no slot).
pub enum SourceImage {
    /// An image that decoded.
    Decoded(DecodedImage),
    /// A directory entry that could not be decoded.
    Failed,
}

impl SourceImage {
    /// A stream entry is well formed when a decoded image in it is.
    pub open spec fn wf(self) -> bool {
        self matches SourceImage::Decoded(d) ==> d.wf()
    }
}

/// The dimension stream that the Slot Allocator sees: each decoded image
/// by its original size, each failure kept as a marker.
pub open spec fn spec_dims(images: Seq<SourceImage>) -> Seq<SourceItem> {
    images.map(
        |i: int, im: SourceImage|
            match im {
                SourceImage::Decoded(d) => SourceItem::Image { width: d.width, height: d.height },
                SourceImage::Failed => SourceItem::Failed,
            },
    )
}

/// Whether a slot's resize target is feasible on this machine: positive
/// target size, and the resampling working buffers fit in memory.
pub open spec fn spec_can_composite(slot: PlacementSlot, src_w: u32, src_h: u32) -> bool {
    &&& slot.width >= 1
    &&& slot.height >= 1
    &&& 16 * src_w * slot.height <= usize::MAX / 2
    &&& 16 * slot.width * slot.height <= usize::MAX / 2
}

/// How one compositing step relates the canvas before and after: under the
/// slot the resized bytes `rs` are blended source-over-destination, and no
/// pixel outside the slot's extent changes.
pub open spec fn composited(before: Canvas, after: Canvas, rs: Seq<u8>, slot: PlacementSlot) -> bool {
    &&& forall|px: int, py: int|
        0 <= px < before.width && 0 <= py < before.height && in_slot(slot, px, py)
            ==> after.spec_pixel(px, py) == blend_pixel(
            before.spec_pixel(px, py),
            pixel_at(rs, slot.width as int, px - slot.x, py - slot.y),
        )
    &&& forall|px: int, py: int|
        0 <= px < before.width && 0 <= py < before.height && !in_slot(slot, px, py)
            ==> after.spec_pixel(px, py) == before.spec_pixel(px, py)
}

/// The nearest-neighbour resample of an RGBA buffer to a target size: its
/// sampling window holds a single pixel and its arithmetic is basic
/// IEEE float work, so the result is a pure function of the pixels and
/// the dimensions.
pub uninterp spec fn resized_of(
    pixels: Seq<u8>,
    src_w: u32,
    src_h: u32,
    dst_w: u32,
    dst_h: u32,
) -> Seq<u8>;

/// Relies on image::imageops::resize: the result is an RGBA buffer of
/// exactly the requested target dimensions (Lanczos3 resampling in batch
/// mode, nearest-neighbour in realtime mode). The nearest-neighbour
/// result depends on the arguments alone and carries the name
/// `resized_of`; equal source and target dimensions take the exact-copy
/// path under either filter. The Lanczos3 pixels go through the
/// platform's libm and stay unspecified.
#[verifier::external_body]
fn resize_rgba(pixels: &Vec<u8>, src_w: u32, src_h: u32, dst_w: u32, dst_h: u32, mode: RunMode) -> (r:
    Vec<u8>)
    requires
        pixels@.len() == 4 * src_w * src_h,
        src_w >= 1,
        src_h >= 1,
        dst_w >= 1,
        dst_h >= 1,
        16 * src_w * dst_h <= usize::MAX / 2,
        16 * dst_w * dst_h <= usize::MAX / 2,
    ensures
        r@.len() == 4 * dst_w * dst_h,
        mode == RunMode::Realtime ==> r@ == resized_of(pixels@, src_w, src_h, dst_w, dst_h),
        src_w == dst_w && src_h == dst_h ==> r@ == pixels@,
{
    let filter = match mode {
        RunMode::Realtime => image::imageops::FilterType::Nearest,
        RunMode::Batch => image::imageops::FilterType::Lanczos3,
    };
    let buffer: image::RgbaImage = image::ImageBuffer::from_raw(src_w, src_h, pixels.clone())
        .expect("buffer length matches the dimensions");
    image::imageops::resize(&buffer, dst_w, dst_h, filter).into_raw()
}

/// The Compositing Engine: resizes a decoded image to its slot's target
/// size and blends it onto the canvas at the slot's origin, clipping at
/// the canvas bounds. Always succeeds for feasible slot geometry; returns
/// `false`, leaving the canvas untouched, for a slot it cannot resize to
/// (zero-width target or an over-large working buffer).
pub fn composite(
    canvas: &mut Canvas,
    slot: &PlacementSlot,
    pixels: &Vec<u8>,
    src_w: u32,
    src_h: u32,
    mode: RunMode,
) -> (placed: bool)
    requires
        old(canvas).wf(),
        pixels@.len() == 4 * src_w * src_h,
        src_w >= 1,
        src_h >= 1,
        slot.x + slot.width <= i64::MAX,
        slot.y + slot.height <= i64::MAX,
    ensures
        final(canvas).wf(),
        final(canvas).width == old(canvas).width,
        final(canvas).height == old(canvas).height,
        placed == spec_can_composite(*slot, src_w, src_h),
        !placed ==> *final(canvas) == *old(canvas),
        placed ==> exists|rs: Seq<u8>|
            rs.len() == 4 * slot.width * slot.height && #[trigger] composited(
                *old(canvas),
                *final(canvas),
                rs,
                *slot,
            ),
        placed && mode == RunMode::Realtime ==> composited(
            *old(canvas),
            *final(canvas),
            resized_of(pixels@, src_w, src_h, slot.width, slot.height),
            *slot,
        ),
        placed && slot.width == src_w && slot.height == src_h ==> composited(
            *old(canvas),
            *final(canvas),
            pixels@,
            *slot,
        ),
        forall|px: int, py: int|
            0 <= px < old(canvas).width && 0 <= py < old(canvas).height && !in_slot(
                *slot,
                px,
                py,
            ) ==> final(canvas).spec_pixel(px, py) == old(canvas).spec_pixel(px, py),
{
    proof {
        assert((16 * (src_w as int)) * (slot.height as int) <= u128::MAX && (16 * (slot.width
            as int)) * (slot.height as int) <= u128::MAX) by (nonlinear_arith)
            requires
                src_w <= 0xffff_ffffu32,
                slot.width <= 0xffff_ffffu32,
                slot.height <= 0xffff_ffffu32,
        ;
    }
    let feasible = slot.width >= 1 && slot.height >= 1 && 16u128 * (src_w as u128) * (slot.height
        as u128) <= (usize::MAX as u128) / 2 && 16u128 * (slot.width as u128) * (slot.height
        as u128) <= (usize::MAX as u128) / 2;
    if !feasible {
        return false;
    }
    let rs = resize_rgba(pixels, src_w, src_h, slot.width, slot.height, mode);
    canvas.overlay(&rs, slot.width, slot.height, slot.x, slot.y);
    proof {
        assert(rs@.len() == 4 * slot.width * slot.height && composited(
            *old(canvas),
            *canvas,
            rs@,
            *slot,
        ));
        assert(mode == RunMode::Realtime ==> rs@ == resized_of(
            pixels@,
            src_w,
            src_h,
            slot.width,
            slot.height,
        ));
        assert(slot.width == src_w && slot.height == src_h ==> rs@ == pixels@);
    }
    true
}

/// A freshly created, all-transparent canvas of the configured size.
pub open spec fn blank_canvas(c: Canvas, cfg: PosterConfig) -> bool {
    &&& c.wf()
    &&& c.width == cfg.width
    &&& c.height == cfg.height
    &&& forall|i: int| 0 <= i < c.data@.len() ==> c.data@[i] == 0u8
}

/// One step of a run: the image was composited into its slot — some
/// resized buffer of the slot's size was blended under it, the
/// nearest-neighbour resample itself in realtime mode, and the image's
/// own bytes where the slot matches its size — or the slot was
/// infeasible to resize to and the canvas is untouched.
pub open spec fn composite_step(
    before: Canvas,
    after: Canvas,
    im: SourceImage,
    slot: PlacementSlot,
    mode: RunMode,
) -> bool {
    &&& im matches SourceImage::Decoded(d) && {
        if spec_can_composite(slot, d.width, d.height) {
            &&& exists|rs: Seq<u8>|
                rs.len() == 4 * slot.width * slot.height && #[trigger] composited(
                    before,
                    after,
                    rs,
                    slot,
                )
            &&& mode == RunMode::Realtime ==> composited(
                before,
                after,
                resized_of(d.pixels@, d.width, d.height, slot.width, slot.height),
                slot,
            )
            &&& slot.width == d.width && slot.height == d.height ==> composited(
                before,
                after,
                d.pixels@,
                slot,
            )
        } else {
            after == before
        }
    }
}

/// How a finished canvas came to be: a chain of canvases from the blank
/// one to the output, one compositing step per scheduled slot, in
/// schedule order.
pub open spec fn render_chain(
    chain: Seq<Canvas>,
    images: Seq<SourceImage>,
    schedule: Seq<Scheduled>,
    cfg: PosterConfig,
    out: Canvas,
) -> bool {
    &&& chain.len() == schedule.len() + 1
    &&& blank_canvas(chain[0], cfg)
    &&& chain[schedule.len() as int] == out
    &&& forall|j: int|
        0 <= j < schedule.len() ==> composite_step(
            chain[j],
            chain[j + 1],
            images[schedule[j].source_index as int],
            #[trigger] schedule[j].slot,
            cfg.mode,
        )
}

/// A canvas pixel is untouched by a run when it lies under none of the
/// run's slots.
pub open spec fn outside_all_slots(schedule: Seq<Scheduled>, px: int, py: int) -> bool {
    forall|k: int| 0 <= k < schedule.len() ==> !in_slot(#[trigger] schedule[k].slot, px, py)
}

/// The transparent pixel.
pub open spec fn transparent() -> Seq<u8> {
    seq![0u8, 0u8, 0u8, 0u8]
}

/// One whole run over an already-decoded image stream: plans every slot
/// sequentially (so placement is deterministic in stream order), then
/// composites each image into its slot. Returns the finished canvas and
/// the schedule. Canvas pixels under no slot stay fully transparent.
pub fn render_poster(images: &Vec<SourceImage>, cfg: &PosterConfig) -> (r: (Canvas, Vec<Scheduled>))
    requires
        cfg.wf(),
        4 * cfg.width * cfg.height <= usize::MAX,
        forall|j: int| 0 <= j < images@.len() ==> (#[trigger] images@[j]).wf(),
    ensures
        r.0.wf(),
        r.0.width == cfg.width,
        r.0.height == cfg.height,
        r.1@ == spec_layout(spec_dims(images@), *cfg),
        exists|chain: Seq<Canvas>| #[trigger] render_chain(chain, images@, r.1@, *cfg, r.0),
        forall|px: int, py: int|
            0 <= px < cfg.width && 0 <= py < cfg.height && outside_all_slots(r.1@, px, py)
                ==> r.0.spec_pixel(px, py) == transparent(),
{
    let mut items: Vec<SourceItem> = Vec::new();
    let mut i: usize = 0;
    while i < images.len()
        invariant
            i <= images@.len(),
            items@.len() == i,
            forall|j: int| 0 <= j < images@.len() ==> (#[trigger] images@[j]).wf(),
            forall|j: int| 0 <= j < i ==> items@[j] == spec_dims(images@)[j],
        decreases images@.len() - i,
    {
        let im = &images[i];
        match im {
            SourceImage::Decoded(d) => {
                items.push(SourceItem::Image { width: d.width, height: d.height });
            },
            SourceImage::Failed => {
                items.push(SourceItem::Failed);
            },
        }
        i = i + 1;
    }
    proof {
        assert(items@ =~= spec_dims(images@));
        assert(forall|j: int|
            0 <= j < items@.len() ==> crate::layout::item_ok(#[trigger] items@[j]));
    }
    let schedule = plan_layout(&items, cfg);
    let mut canvas = Canvas::new(cfg.width, cfg.height);
    proof {
        assert forall|px: int, py: int|
            0 <= px < cfg.width && 0 <= py < cfg.height implies canvas.spec_pixel(px, py)
            == transparent() by {
            crate::canvas::lemma_pixel_index_bounds(
                cfg.width as int,
                cfg.height as int,
                px,
                py,
            );
            assert(canvas.spec_pixel(px, py) =~= transparent());
        }
    }
    let ghost sched = schedule@;
    let ghost canvas0 = canvas;
    let ghost mut chain: Seq<Canvas> = seq![canvas];
    let mut j: usize = 0;
    while j < schedule.len()
        invariant
            j <= sched.len(),
            schedule@ == sched,
            blank_canvas(canvas0, *cfg),
            chain.len() == j + 1,
            chain[0] == canvas0,
            chain[j as int] == canvas,
            forall|jj: int|
                0 <= jj < j ==> composite_step(
                    chain[jj],
                    chain[jj + 1],
                    images@[sched[jj].source_index as int],
                    #[trigger] sched[jj].slot,
                    cfg.mode,
                ),
            sched == spec_layout(spec_dims(images@), *cfg),
            canvas.wf(),
            canvas.width == cfg.width,
            canvas.height == cfg.height,
            cfg.wf(),
            forall|jj: int| 0 <= jj < images@.len() ==> (#[trigger] images@[jj]).wf(),
            items@ == spec_dims(images@),
            forall|k: int|
                0 <= k < sched.len() ==> #[trigger] sched[k].source_index < images@.len()
                    && items@[sched[k].source_index as int] matches SourceItem::Image { .. },
            forall|k: int|
                0 <= k < sched.len() ==> 0 <= #[trigger] sched[k].slot.y <= cfg.height
                    && -(cfg.band_height as int) <= sched[k].slot.x <= cfg.width + 2 * (
                u32::MAX as int) && sched[k].slot.height == cfg.band_height,
            forall|px: int, py: int|
                0 <= px < cfg.width && 0 <= py < cfg.height && (forall|k: int|
                    0 <= k < j ==> !in_slot(#[trigger] sched[k].slot, px, py))
                    ==> canvas.spec_pixel(px, py) == transparent(),
        decreases sched.len() - j,
    {
        let sch = &schedule[j];
        proof {
            assert(sched[j as int].source_index < images@.len());
            assert(0 <= sched[j as int].slot.y <= cfg.height);
        }
        let idx = sch.source_index;
        let im = &images[idx];
        let ghost prev = canvas;
        match im {
            SourceImage::Decoded(d) => {
                composite(&mut canvas, &sch.slot, &d.pixels, d.width, d.height, cfg.mode);
            },
            SourceImage::Failed => {
                proof {
                    assert(items@[sched[j as int].source_index as int] matches SourceItem::Image { .. });
                    assert(false);
                }
            },
        }
        proof {
            assert(composite_step(
                prev,
                canvas,
                images@[sched[j as int].source_index as int],
                sched[j as int].slot,
                cfg.mode,
            ));
            chain = chain.push(canvas);
            assert forall|px: int, py: int|
                0 <= px < cfg.width && 0 <= py < cfg.height && (forall|k: int|
                    0 <= k < j + 1 ==> !in_slot(#[trigger] sched[k].slot, px, py))
                implies canvas.spec_pixel(px, py) == transparent() by {
                assert(!in_slot(sched[j as int].slot, px, py));
                assert(forall|k: int| 0 <= k < j ==> !in_slot(#[trigger] sched[k].slot, px, py));
                assert(prev.spec_pixel(px, py) == transparent());
            }
        }
        j = j + 1;
    }
    let r = (canvas, schedule);
    proof {
        assert(render_chain(chain, images@, r.1@, *cfg, r.0));
    }
    r
}

} // verus!
