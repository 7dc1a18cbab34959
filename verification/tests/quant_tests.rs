use poster_wall::{quantized_png, remap_indexed, Color, PosterError};

const RED: Color = Color { r: 255, g: 0, b: 0, a: 255 };
const BLUE: Color = Color { r: 0, g: 0, b: 255, a: 255 };

#[test]
fn remap_rebuilds_the_raster() {
    let palette = vec![RED, BLUE];
    let indices = vec![0u8, 1, 1, 0];
    let out = remap_indexed(&palette, &indices, 2, 2).unwrap();
    assert_eq!(
        out,
        vec![
            255, 0, 0, 255, //
            0, 0, 255, 255, //
            0, 0, 255, 255, //
            255, 0, 0, 255,
        ]
    );
}

#[test]
fn remap_rejects_out_of_range_index() {
    let palette = vec![RED];
    let indices = vec![0u8, 1, 0, 0];
    assert_eq!(
        remap_indexed(&palette, &indices, 2, 2),
        Err(PosterError::QuantizationFailure)
    );
}

#[test]
fn remap_rejects_wrong_pixel_count() {
    let palette = vec![RED, BLUE];
    let indices = vec![0u8, 1, 1];
    assert_eq!(
        remap_indexed(&palette, &indices, 2, 2),
        Err(PosterError::QuantizationFailure)
    );
}

#[test]
fn error_messages_name_their_stage() {
    assert_eq!(
        PosterError::DecodeFailure.message(),
        "image could not be decoded"
    );
    assert_eq!(
        PosterError::DirectoryFailure.message(),
        "directory could not be read"
    );
    assert_eq!(
        PosterError::QuantizationFailure.message(),
        "palette quantization failed"
    );
    assert_eq!(
        PosterError::PersistFailure.message(),
        "output could not be written"
    );
}

#[test]
fn quantized_png_rejects_bad_index_stream() {
    let palette = vec![RED];
    let indices = vec![0u8, 3, 0, 0];
    assert_eq!(
        quantized_png(&palette, &indices, 2, 2, 2),
        Err(PosterError::QuantizationFailure)
    );
}

#[test]
fn quantized_png_round_trips_losslessly() {
    // A 4x4 checkerboard of two colors through the palette tail: the
    // produced file must decode to exactly the remapped raster.
    let palette = vec![RED, BLUE];
    let mut indices = Vec::new();
    for p in 0..16u8 {
        indices.push((p + p / 4) % 2);
    }
    let raster = remap_indexed(&palette, &indices, 4, 4).unwrap();
    let bytes = quantized_png(&palette, &indices, 4, 4, 2).unwrap();
    let decoded = image::load_from_memory(&bytes).unwrap();
    assert_eq!((decoded.width(), decoded.height()), (4, 4));
    assert_eq!(decoded.into_rgba8().into_raw(), raster);
}

#[test]
fn quantization_round_trip_bounds_colors() {
    // A gradient quantized by the palette generator, rebuilt and
    // re-optimized by the library: the decoded output keeps the canvas
    // size and shows at most as many distinct colors as the palette
    // allows.
    let (w, h) = (16u32, 16u32);
    let mut rgba: Vec<imagequant::RGBA> = Vec::new();
    for y in 0..h {
        for x in 0..w {
            rgba.push(imagequant::RGBA {
                r: (x * 16) as u8,
                g: (y * 16) as u8,
                b: ((x + y) * 8) as u8,
                a: 255,
            });
        }
    }
    let mut liq = imagequant::new();
    liq.set_speed(4).unwrap();
    liq.set_quality(0, 70).unwrap();
    let mut img = liq
        .new_image(rgba, w as usize, h as usize, 0.0)
        .unwrap();
    let mut res = liq.quantize(&mut img).unwrap();
    res.set_dithering_level(0.7).unwrap();
    let (liq_palette, liq_indices) = res.remapped(&mut img).unwrap();
    assert!(liq_palette.len() <= 256);

    let palette: Vec<Color> = liq_palette
        .iter()
        .map(|c| Color { r: c.r, g: c.g, b: c.b, a: c.a })
        .collect();
    let bytes = quantized_png(&palette, &liq_indices, w, h, 2).unwrap();
    let decoded = image::load_from_memory(&bytes).unwrap();
    assert_eq!((decoded.width(), decoded.height()), (w, h));

    let mut distinct: Vec<[u8; 4]> = Vec::new();
    for chunk in decoded.into_rgba8().into_raw().chunks(4) {
        let c = [chunk[0], chunk[1], chunk[2], chunk[3]];
        if !distinct.contains(&c) {
            distinct.push(c);
        }
    }
    assert!(distinct.len() <= palette.len());
}
