use poster_wall::{
    composite, plan_layout, render_poster, Canvas, DecodedImage, PlacementSlot, PosterConfig,
    RunMode, SourceImage, SourceItem,
};

fn pixel(canvas: &Canvas, x: u32, y: u32) -> [u8; 4] {
    let base = (4 * (y * canvas.width + x)) as usize;
    [
        canvas.data[base],
        canvas.data[base + 1],
        canvas.data[base + 2],
        canvas.data[base + 3],
    ]
}

/// One solid-color RGBA buffer of `w * h` pixels.
fn solid(w: u32, h: u32, rgba: [u8; 4]) -> Vec<u8> {
    let mut v = Vec::new();
    for _ in 0..(w * h) {
        v.extend_from_slice(&rgba);
    }
    v
}

#[test]
fn new_canvas_is_transparent() {
    let canvas = Canvas::new(3, 2);
    assert_eq!(canvas.width, 3);
    assert_eq!(canvas.height, 2);
    assert_eq!(canvas.data.len(), 24);
    assert!(canvas.data.iter().all(|&b| b == 0));
}

#[test]
fn opaque_overlay_replaces_pixels() {
    let mut canvas = Canvas::new(2, 2);
    let red = solid(1, 1, [255, 0, 0, 255]);
    canvas.overlay(&red, 1, 1, 0, 0);
    assert_eq!(pixel(&canvas, 0, 0), [255, 0, 0, 255]);
    assert_eq!(pixel(&canvas, 1, 0), [0, 0, 0, 0]);
    assert_eq!(pixel(&canvas, 0, 1), [0, 0, 0, 0]);
    assert_eq!(pixel(&canvas, 1, 1), [0, 0, 0, 0]);
}

#[test]
fn semi_transparent_overlay_blends() {
    let mut canvas = Canvas::new(1, 1);
    let white = solid(1, 1, [255, 255, 255, 255]);
    canvas.overlay(&white, 1, 1, 0, 0);
    let green = solid(1, 1, [0, 255, 0, 128]);
    canvas.overlay(&green, 1, 1, 0, 0);
    // (0*128 + 255*127 + 127)/255 = 127 on red and blue,
    // (255*128 + 255*127 + 127)/255 = 255 on green,
    // 128 + (255*127 + 127)/255 = 255 on alpha.
    assert_eq!(pixel(&canvas, 0, 0), [127, 255, 127, 255]);
}

#[test]
fn overlay_clips_at_every_edge() {
    let mut canvas = Canvas::new(2, 2);
    // A 2x2 source at (-1, -1): only its bottom-right pixel lands on the
    // canvas, at (0, 0).
    let blue = solid(2, 2, [0, 0, 255, 255]);
    canvas.overlay(&blue, 2, 2, -1, -1);
    assert_eq!(pixel(&canvas, 0, 0), [0, 0, 255, 255]);
    assert_eq!(pixel(&canvas, 1, 0), [0, 0, 0, 0]);
    assert_eq!(pixel(&canvas, 0, 1), [0, 0, 0, 0]);
    assert_eq!(pixel(&canvas, 1, 1), [0, 0, 0, 0]);

    // A 2x2 source at (1, 1): only the canvas corner (1, 1) is written.
    let mut canvas = Canvas::new(2, 2);
    canvas.overlay(&blue, 2, 2, 1, 1);
    assert_eq!(pixel(&canvas, 0, 0), [0, 0, 0, 0]);
    assert_eq!(pixel(&canvas, 1, 0), [0, 0, 0, 0]);
    assert_eq!(pixel(&canvas, 0, 1), [0, 0, 0, 0]);
    assert_eq!(pixel(&canvas, 1, 1), [0, 0, 255, 255]);

    // A source entirely off the canvas changes nothing.
    let mut canvas = Canvas::new(2, 2);
    canvas.overlay(&blue, 2, 2, 5, -7);
    assert!(canvas.data.iter().all(|&b| b == 0));
}

#[test]
fn composite_resizes_into_slot() {
    let mut canvas = Canvas::new(2, 2);
    let red = solid(1, 1, [255, 0, 0, 255]);
    let slot = PlacementSlot { x: 0, y: 0, width: 2, height: 2 };
    let placed = composite(&mut canvas, &slot, &red, 1, 1, RunMode::Realtime);
    assert!(placed);
    // A solid source stays solid whatever the resampling filter; the
    // 1x1 -> 2x2 resize must fill the whole slot.
    for x in 0..2 {
        for y in 0..2 {
            assert_eq!(pixel(&canvas, x, y), [255, 0, 0, 255]);
        }
    }
}

#[test]
fn composite_copies_exactly_at_equal_dimensions() {
    // A slot of exactly the source size takes the resize copy path: an
    // opaque source lands byte for byte, under either filter quality.
    let src = vec![
        10, 20, 30, 255, //
        40, 50, 60, 255, //
        70, 80, 90, 255, //
        100, 110, 120, 255,
    ];
    for mode in [RunMode::Realtime, RunMode::Batch] {
        let mut canvas = Canvas::new(2, 2);
        let slot = PlacementSlot { x: 0, y: 0, width: 2, height: 2 };
        assert!(composite(&mut canvas, &slot, &src, 2, 2, mode));
        assert_eq!(canvas.data, src);
    }
}

#[test]
fn composite_skips_zero_width_slot() {
    let mut canvas = Canvas::new(2, 2);
    let red = solid(1, 1, [255, 0, 0, 255]);
    let slot = PlacementSlot { x: 0, y: 0, width: 0, height: 2 };
    let placed = composite(&mut canvas, &slot, &red, 1, 1, RunMode::Batch);
    assert!(!placed);
    assert!(canvas.data.iter().all(|&b| b == 0));
}

#[test]
fn composite_touches_only_its_slot() {
    let mut canvas = Canvas::new(4, 4);
    let white = solid(2, 2, [255, 255, 255, 255]);
    let slot = PlacementSlot { x: 1, y: 1, width: 2, height: 2 };
    assert!(composite(&mut canvas, &slot, &white, 2, 2, RunMode::Realtime));
    for x in 0..4u32 {
        for y in 0..4u32 {
            let inside = (1..3).contains(&x) && (1..3).contains(&y);
            if inside {
                assert_eq!(pixel(&canvas, x, y), [255, 255, 255, 255]);
            } else {
                assert_eq!(pixel(&canvas, x, y), [0, 0, 0, 0]);
            }
        }
    }
}

#[test]
fn render_matches_planned_schedule() {
    let cfg = PosterConfig::new(300, 0, 10, RunMode::Batch);
    let images = vec![
        SourceImage::Decoded(DecodedImage {
            width: 2,
            height: 1,
            pixels: solid(2, 1, [255, 0, 0, 255]),
        }),
        SourceImage::Failed,
        SourceImage::Decoded(DecodedImage {
            width: 1,
            height: 1,
            pixels: solid(1, 1, [0, 255, 0, 255]),
        }),
    ];
    let items = vec![
        SourceItem::Image { width: 2, height: 1 },
        SourceItem::Failed,
        SourceItem::Image { width: 1, height: 1 },
    ];
    let (canvas, schedule) = render_poster(&images, &cfg);
    assert_eq!(canvas.width, 300);
    assert_eq!(canvas.height, 0);
    assert_eq!(schedule, plan_layout(&items, &cfg));
    assert_eq!(schedule.len(), 2);
    assert_eq!(schedule[0].source_index, 0);
    assert_eq!(schedule[1].source_index, 2);
}

#[test]
fn render_of_failures_leaves_canvas_transparent() {
    // Nothing decodes: zero slots, and the output is an all-transparent
    // canvas of the configured size.
    let cfg = PosterConfig::new(8, 4, 1, RunMode::Batch);
    let images = vec![SourceImage::Failed, SourceImage::Failed];
    let (canvas, schedule) = render_poster(&images, &cfg);
    assert!(schedule.is_empty());
    assert_eq!((canvas.width, canvas.height), (8, 4));
    assert_eq!(canvas.data.len(), 8 * 4 * 4);
    assert!(canvas.data.iter().all(|&b| b == 0));
}

#[test]
fn render_places_pixels_at_slot_origins() {
    let cfg = PosterConfig::new(1000, 1290, 10, RunMode::Realtime);
    // Band height (1290 - 50) / 6 = 206.
    assert_eq!(cfg.band_height, 206);
    let images = vec![SourceImage::Decoded(DecodedImage {
        width: 3,
        height: 3,
        pixels: solid(3, 3, [9, 8, 7, 255]),
    })];
    let (canvas, schedule) = render_poster(&images, &cfg);
    assert_eq!(schedule.len(), 1);
    let slot = schedule[0].slot;
    assert_eq!((slot.x, slot.y), (0, 0));
    assert_eq!((slot.width, slot.height), (206, 206));
    // Inside the slot the solid color landed; right of it stays clear.
    assert_eq!(pixel(&canvas, 0, 0), [9, 8, 7, 255]);
    assert_eq!(pixel(&canvas, 205, 205), [9, 8, 7, 255]);
    assert_eq!(pixel(&canvas, 206, 0), [0, 0, 0, 0]);
}
