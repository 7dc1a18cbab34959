use vstd::prelude::*;

use crate::config::PosterConfig;

verus! {

/// Mutable layout state: the next insertion point and the number of
/// completed rows. `x` may be negative on odd rows (the brick stagger).
#[derive(Clone, Copy, PartialEq, Eq, Structural, Debug)]
pub struct Cursor {
    /// Current horizontal insertion offset; may be negative.
    pub x: i64,
    /// Current vertical insertion offset.
    pub y: i64,
    /// Count of completed rows.
    pub row: u64,
}

/// An immutable placement assignment for exactly one source image:
/// top-left origin and target size after the aspect-preserving resize.
#[derive(Clone, Copy, PartialEq, Eq, Structural, Debug)]
pub struct PlacementSlot {
    /// Horizontal origin on the canvas; may be negative or past the right
    /// edge (the compositor clips).
    pub x: i64,
    /// Vertical origin on the canvas.
    pub y: i64,
    /// Target width after resizing.
    pub width: u32,
    /// Target height after resizing; always the band height.
    pub height: u32,
}

/// One entry of the discovered-image stream: either the dimensions of an
/// image that decoded, or a marker for one that did not.
#[derive(Clone, Copy, PartialEq, Eq, Structural, Debug)]
pub enum SourceItem {
    /// An image that decoded, with its original dimensions.
    Image { width: u32, height: u32 },
    /// A directory entry that failed to decode; it consumes no slot.
    Failed,
}

/// A slot paired with the index of the source item it was assigned to.
#[derive(Clone, Copy, PartialEq, Eq, Structural, Debug)]
pub struct Scheduled {
    /// Index into the input stream of the image this slot belongs to.
    pub source_index: usize,
    /// The placement assigned to that image.
    pub slot: PlacementSlot,
}

/// An item is usable when a decoded image has a positive height, so that
/// its aspect ratio is defined.
pub open spec fn item_ok(it: SourceItem) -> bool {
    it matches SourceItem::Image { height, .. } ==> height >= 1
}

/// The width an image of the given size gets when resized to the band
/// height preserving aspect ratio: `src_w * band_h / src_h`, rounded to the
/// nearest integer and saturated at `u32::MAX`.
pub open spec fn spec_target_width(src_w: u32, src_h: u32, band_h: u32) -> u32
    recommends
        src_h >= 1,
{
    let w = (src_w * band_h + src_h / 2) / (src_h as int);
    if w > u32::MAX {
        u32::MAX
    } else {
        w as u32
    }
}

/// Computes the dimensions an image is resized to before placement: the
/// height is always the band height, the width preserves the aspect ratio.
pub fn calculate_new_dimensions(src_w: u32, src_h: u32, band_h: u32) -> (r: (u32, u32))
    requires
        src_h >= 1,
    ensures
        r.0 == spec_target_width(src_w, src_h, band_h),
        r.1 == band_h,
{
    proof {
        assert((src_w as int) * (band_h as int) + (src_h as int) / 2 < 0x1_0000_0000_0000_0000int)
            by (nonlinear_arith)
            requires
                src_w <= 0xffff_ffffu32,
                band_h <= 0xffff_ffffu32,
                src_h <= 0xffff_ffffu32,
        ;
    }
    let num: u64 = (src_w as u64) * (band_h as u64) + (src_h as u64) / 2;
    let w: u64 = num / (src_h as u64);
    let w32: u32 = if w > u32::MAX as u64 {
        u32::MAX
    } else {
        w as u32
    };
    (w32, band_h)
}

/// The Fill-Stop condition: no further slot is produced once the cursor's
/// vertical offset exceeds the canvas height.
pub open spec fn spec_should_stop(c: Cursor, cfg: PosterConfig) -> bool {
    c.y > cfg.height
}

/// Evaluates the Fill-Stop condition for the current cursor. It must be
/// re-evaluated before every candidate image, because the cursor moves.
pub fn should_stop(c: &Cursor, cfg: &PosterConfig) -> (r: bool)
    ensures
        r == spec_should_stop(*c, *cfg),
{
    c.y > cfg.height as i64
}

/// The slot assigned to an image when the cursor stands at `c`: the origin
/// is the cursor position, the size is the aspect-preserving resize target.
pub open spec fn spec_slot(c: Cursor, src_w: u32, src_h: u32, cfg: PosterConfig) -> PlacementSlot {
    PlacementSlot {
        x: c.x,
        y: c.y,
        width: spec_target_width(src_w, src_h, cfg.band_height),
        height: cfg.band_height,
    }
}

/// The cursor advance rule, applied after every placement: while the
/// pre-advance `x` is still left of the full canvas width, move right by
/// the placed width plus the gap; otherwise complete the row, move down by
/// one band plus the gap, and reset `x` to the stagger offset (half a band
/// to the left on odd rows, zero on even rows).
pub open spec fn spec_advance(c: Cursor, placed_width: u32, cfg: PosterConfig) -> Cursor {
    if c.x < cfg.width {
        Cursor { x: (c.x + placed_width + cfg.gap) as i64, y: c.y, row: c.row }
    } else {
        let row = (c.row + 1) as u64;
        Cursor {
            x: if row % 2 == 1 {
                (-((cfg.band_height / 2) as int)) as i64
            } else {
                0
            },
            y: (c.y + cfg.band_height + cfg.gap) as i64,
            row,
        }
    }
}

/// The cursor states reachable in a run: `x` lies between one band-stagger
/// to the left and one advance past the right edge; `y` never runs more
/// than one wrap past the canvas height; the row count is bounded by how
/// far `y` has come.
pub open spec fn cursor_inv(c: Cursor, cfg: PosterConfig) -> bool {
    &&& -(cfg.band_height as int) <= c.x <= cfg.width + 2 * (u32::MAX as int)
    &&& 0 <= c.y <= cfg.height + cfg.band_height + cfg.gap
    &&& c.row * (cfg.band_height + cfg.gap) <= c.y
}

/// The initial cursor of a run.
pub open spec fn spec_initial_cursor() -> Cursor {
    Cursor { x: 0, y: 0, row: 0 }
}

impl Cursor {
    /// The cursor a run starts with: origin, no completed rows.
    pub fn new() -> (r: Cursor)
        ensures
            r == spec_initial_cursor(),
    {
        Cursor { x: 0, y: 0, row: 0 }
    }
}

/// The Slot Allocator step. Re-evaluates the Fill-Stop condition; when the
/// canvas is not yet full, assigns the image the slot at the current cursor
/// and advances the cursor. Returns `None`, leaving the cursor untouched,
/// once the canvas vertical extent is exhausted.
pub fn allocate(cursor: &mut Cursor, src_w: u32, src_h: u32, cfg: &PosterConfig) -> (r: Option<
    PlacementSlot,
>)
    requires
        src_h >= 1,
        cfg.wf(),
        cursor_inv(*old(cursor), *cfg),
    ensures
        cursor_inv(*final(cursor), *cfg),
        spec_should_stop(*old(cursor), *cfg) ==> r is None && *final(cursor) == *old(cursor),
        !spec_should_stop(*old(cursor), *cfg) ==> {
            &&& r == Some(spec_slot(*old(cursor), src_w, src_h, *cfg))
            &&& *final(cursor) == spec_advance(
                *old(cursor),
                spec_target_width(src_w, src_h, cfg.band_height),
                *cfg,
            )
        },
        r matches Some(s) ==> s.y <= cfg.height,
{
    if cursor.y > cfg.height as i64 {
        return None;
    }
    let (w, h) = calculate_new_dimensions(src_w, src_h, cfg.band_height);
    let slot = PlacementSlot { x: cursor.x, y: cursor.y, width: w, height: h };
    if cursor.x < cfg.width as i64 {
        cursor.x = cursor.x + w as i64 + cfg.gap as i64;
    } else {
        proof {
            assert(cursor.row < u64::MAX) by (nonlinear_arith)
                requires
                    cursor.row * (cfg.band_height + cfg.gap) <= cursor.y,
                    cfg.band_height + cfg.gap >= 100,
                    cursor.y <= cfg.height + cfg.band_height + cfg.gap,
                    cfg.height <= u32::MAX,
                    cfg.band_height <= u32::MAX,
                    cfg.gap <= u32::MAX,
            ;
        }
        cursor.row = cursor.row + 1;
        cursor.y = cursor.y + cfg.band_height as i64 + cfg.gap as i64;
        cursor.x = if cursor.row % 2 == 1 {
            -((cfg.band_height / 2) as i64)
        } else {
            0
        };
        proof {
            assert(cursor.row * (cfg.band_height + cfg.gap) <= cursor.y) by (nonlinear_arith)
                requires
                    (cursor.row - 1) * (cfg.band_height + cfg.gap) <= cursor.y - (cfg.band_height
                        + cfg.gap),
            ;
        }
    }
    Some(slot)
}

/// The slots a whole input stream gets, starting at index `i` with cursor
/// `c`: failed entries consume no slot, and the first image met once the
/// Fill-Stop condition holds ends the run.
pub open spec fn spec_layout_from(
    items: Seq<SourceItem>,
    i: int,
    c: Cursor,
    cfg: PosterConfig,
) -> Seq<Scheduled>
    decreases items.len() - i,
{
    if i < 0 || i >= items.len() {
        Seq::empty()
    } else {
        match items[i] {
            SourceItem::Failed => spec_layout_from(items, i + 1, c, cfg),
            SourceItem::Image { width, height } => {
                if spec_should_stop(c, cfg) {
                    Seq::empty()
                } else {
                    let slot = spec_slot(c, width, height, cfg);
                    seq![Scheduled { source_index: i as usize, slot }] + spec_layout_from(
                        items,
                        i + 1,
                        spec_advance(c, slot.width, cfg),
                        cfg,
                    )
                }
            },
        }
    }
}

/// The slot assignment of a whole run over an input stream.
pub open spec fn spec_layout(items: Seq<SourceItem>, cfg: PosterConfig) -> Seq<Scheduled> {
    spec_layout_from(items, 0, spec_initial_cursor(), cfg)
}

/// Once the Fill-Stop condition holds, no further slot is assigned.
pub proof fn lemma_layout_from_stopped(
    items: Seq<SourceItem>,
    i: int,
    c: Cursor,
    cfg: PosterConfig,
)
    requires
        spec_should_stop(c, cfg),
    ensures
        spec_layout_from(items, i, c, cfg) == Seq::<Scheduled>::empty(),
    decreases items.len() - i,
{
    if 0 <= i < items.len() {
        match items[i] {
            SourceItem::Failed => {
                lemma_layout_from_stopped(items, i + 1, c, cfg);
            },
            SourceItem::Image { .. } => {
            },
        }
    }
}

/// Whether the point `(px, py)` lies in the rectangular extent of a slot.
pub open spec fn in_slot(s: PlacementSlot, px: int, py: int) -> bool {
    &&& s.x <= px < s.x + s.width
    &&& s.y <= py < s.y + s.height
}

/// Whether two slots' rectangular extents share a point.
pub open spec fn slots_overlap(a: PlacementSlot, b: PlacementSlot) -> bool {
    exists|px: int, py: int| in_slot(a, px, py) && in_slot(b, px, py)
}

/// Two slots separated horizontally or vertically do not overlap.
pub proof fn lemma_separated_no_overlap(a: PlacementSlot, b: PlacementSlot)
    requires
        a.x + a.width <= b.x || b.x + b.width <= a.x || a.y + a.height <= b.y || b.y + b.height
            <= a.y,
    ensures
        !slots_overlap(a, b),
{
    assert forall|px: int, py: int| !(in_slot(a, px, py) && in_slot(b, px, py)) by {}
}

/// The sequential layout pre-pass of a run: assigns every decoded image of
/// the stream its slot, in stream order, until the canvas is full. The
/// result is a function of the input alone; its slots lie on
/// non-decreasing `y`, non-decreasing `x` within a row, never overlap, and
/// never start below the canvas height.
pub fn plan_layout(items: &Vec<SourceItem>, cfg: &PosterConfig) -> (r: Vec<Scheduled>)
    requires
        cfg.wf(),
        forall|j: int| 0 <= j < items@.len() ==> item_ok(#[trigger] items@[j]),
    ensures
        r@ == spec_layout(items@, *cfg),
        forall|a: int, b: int|
            0 <= a <= b < r@.len() ==> #[trigger] r@[a].slot.y <= #[trigger] r@[b].slot.y,
        forall|a: int, b: int|
            0 <= a < b < r@.len() && #[trigger] r@[a].slot.y == #[trigger] r@[b].slot.y
                ==> r@[a].slot.x <= r@[b].slot.x,
        forall|a: int, b: int|
            0 <= a < b < r@.len() ==> !slots_overlap(#[trigger] r@[a].slot, #[trigger] r@[b].slot),
        forall|k: int| 0 <= k < r@.len() ==> #[trigger] r@[k].slot.y <= cfg.height,
        forall|k: int| 0 <= k < r@.len() ==> #[trigger] r@[k].slot.height == cfg.band_height,
        forall|k: int|
            0 <= k < r@.len() ==> 0 <= #[trigger] r@[k].slot.y && -(cfg.band_height as int)
                <= r@[k].slot.x <= cfg.width + 2 * (u32::MAX as int),
        forall|k: int|
            0 <= k < r@.len() ==> #[trigger] r@[k].source_index < items@.len() && items@[r@[k].source_index as int] matches SourceItem::Image { .. },
{
    let mut r: Vec<Scheduled> = Vec::new();
    let mut cursor = Cursor::new();
    let mut i: usize = 0;
    while i < items.len()
        invariant
            cfg.wf(),
            forall|j: int| 0 <= j < items@.len() ==> item_ok(#[trigger] items@[j]),
            i <= items@.len(),
            cursor_inv(cursor, *cfg),
            r@ + spec_layout_from(items@, i as int, cursor, *cfg) == spec_layout(items@, *cfg),
            forall|k: int| 0 <= k < r@.len() ==> #[trigger] r@[k].slot.height == cfg.band_height,
            forall|k: int| 0 <= k < r@.len() ==> #[trigger] r@[k].slot.y <= cfg.height,
            forall|k: int| 0 <= k < r@.len() ==> #[trigger] r@[k].slot.y <= cursor.y,
            forall|k: int|
                0 <= k < r@.len() && #[trigger] r@[k].slot.y == cursor.y ==> r@[k].slot.x
                    + r@[k].slot.width <= cursor.x,
            forall|k: int|
                0 <= k < r@.len() && #[trigger] r@[k].slot.y != cursor.y ==> r@[k].slot.y
                    + cfg.band_height + cfg.gap <= cursor.y,
            forall|k: int|
                0 <= k < r@.len() ==> 0 <= #[trigger] r@[k].slot.y && -(cfg.band_height as int)
                    <= r@[k].slot.x <= cfg.width + 2 * (u32::MAX as int),
            forall|a: int, b: int|
                0 <= a <= b < r@.len() ==> #[trigger] r@[a].slot.y <= #[trigger] r@[b].slot.y,
            forall|a: int, b: int|
                0 <= a < b < r@.len() && #[trigger] r@[a].slot.y == #[trigger] r@[b].slot.y
                    ==> r@[a].slot.x <= r@[b].slot.x,
            forall|a: int, b: int|
                0 <= a < b < r@.len() ==> !slots_overlap(
                    #[trigger] r@[a].slot,
                    #[trigger] r@[b].slot,
                ),
            forall|k: int|
                0 <= k < r@.len() ==> #[trigger] r@[k].source_index < items@.len() && items@[r@[k].source_index as int] matches SourceItem::Image { .. },
        ensures
            r@ == spec_layout(items@, *cfg),
        decreases items@.len() - i,
    {
        let it: SourceItem = items[i];
        match it {
            SourceItem::Failed => {
                i = i + 1;
            },
            SourceItem::Image { width, height } => {
                let ghost pre = cursor;
                match allocate(&mut cursor, width, height, cfg) {
                    None => {
                        proof {
                            lemma_layout_from_stopped(items@, i as int, cursor, *cfg);
                        }
                        break ;
                    },
                    Some(slot) => {
                        proof {
                            assert(slot == spec_slot(pre, width, height, *cfg));
                            // The new slot is placed at the pre-advance cursor: every
                            // earlier slot lies left of it in the same row or in a row
                            // fully above it.
                            assert forall|k: int| 0 <= k < r@.len() implies !slots_overlap(
                                #[trigger] r@[k].slot,
                                slot,
                            ) && (r@[k].slot.y == slot.y ==> r@[k].slot.x <= slot.x) && r@[k].slot.y
                                <= slot.y by {
                                lemma_separated_no_overlap(r@[k].slot, slot);
                            }
                        }
                        r.push(Scheduled { source_index: i, slot });
                        i = i + 1;
                    },
                }
            },
        }
    }
    r
}

/// A canvas shorter than one band plus gap holds a single row: starting
/// from the top, every slot the run assigns keeps `y == 0`, because the
/// first wrap already exceeds the canvas height and stops the run.
pub proof fn lemma_short_canvas_single_row(
    items: Seq<SourceItem>,
    i: int,
    c: Cursor,
    cfg: PosterConfig,
)
    requires
        cfg.height < cfg.band_height + cfg.gap,
        c.y == 0,
    ensures
        forall|k: int|
            0 <= k < spec_layout_from(items, i, c, cfg).len() ==> spec_layout_from(
                items,
                i,
                c,
                cfg,
            )[k].slot.y == 0,
    decreases items.len() - i,
{
    if 0 <= i < items.len() {
        match items[i] {
            SourceItem::Failed => {
                lemma_short_canvas_single_row(items, i + 1, c, cfg);
                assert(spec_layout_from(items, i, c, cfg) == spec_layout_from(
                    items,
                    i + 1,
                    c,
                    cfg,
                ));
            },
            SourceItem::Image { width, height } => {
                if spec_should_stop(c, cfg) {
                    assert(spec_layout_from(items, i, c, cfg) == Seq::<Scheduled>::empty());
                }
                if !spec_should_stop(c, cfg) {
                    let slot = spec_slot(c, width, height, cfg);
                    let c2 = spec_advance(c, slot.width, cfg);
                    if c.x < cfg.width {
                        assert(c2.y == 0);
                        lemma_short_canvas_single_row(items, i + 1, c2, cfg);
                    } else {
                        assert(c2.y == cfg.band_height + cfg.gap);
                        assert(spec_should_stop(c2, cfg));
                        lemma_layout_from_stopped(items, i + 1, c2, cfg);
                    }
                    let head = Scheduled { source_index: i as usize, slot };
                    let tail = spec_layout_from(items, i + 1, c2, cfg);
                    assert(spec_layout_from(items, i, c, cfg) == seq![head] + tail);
                    assert forall|k: int|
                        0 <= k < spec_layout_from(items, i, c, cfg).len() implies spec_layout_from(
                        items,
                        i,
                        c,
                        cfg,
                    )[k].slot.y == 0 by {
                        if k == 0 {
                            assert(spec_layout_from(items, i, c, cfg)[0] == head);
                        } else {
                            assert(spec_layout_from(items, i, c, cfg)[k] == tail[k - 1]);
                        }
                    }
                }
            },
        }
    }
}

/// The single-row law for a whole run on a short canvas.
pub proof fn lemma_short_canvas_layout(items: Seq<SourceItem>, cfg: PosterConfig)
    requires
        cfg.height < cfg.band_height + cfg.gap,
    ensures
        forall|k: int|
            0 <= k < spec_layout(items, cfg).len() ==> spec_layout(items, cfg)[k].slot.y == 0,
{
    lemma_short_canvas_single_row(items, 0, spec_initial_cursor(), cfg);
}

/// Determinism of the Slot Allocator: two runs of the layout pre-pass on
/// the same ordered input with the same configuration assign identical
/// slots.
pub proof fn lemma_layout_deterministic(
    items: Seq<SourceItem>,
    cfg: PosterConfig,
    r1: Seq<Scheduled>,
    r2: Seq<Scheduled>,
)
    requires
        r1 == spec_layout(items, cfg),
        r2 == spec_layout(items, cfg),
    ensures
        r1 == r2,
{
}

} // verus!
