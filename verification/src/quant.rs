use vstd::prelude::*;

use crate::errors::PosterError;

verus! {

/// One RGBA palette entry.
#[derive(Clone, Copy, PartialEq, Eq, Structural, Debug)]
pub struct Color {
    /// Red channel.
    pub r: u8,
    /// Green channel.
    pub g: u8,
    /// Blue channel.
    pub b: u8,
    /// Alpha channel.
    pub a: u8,
}

/// The four bytes of a palette entry in buffer order.
pub open spec fn color_seq(c: Color) -> Seq<u8> {
    seq![c.r, c.g, c.b, c.a]
}

/// A well-formed index stream: exactly one entry per pixel, each an
/// in-range palette index.
pub open spec fn valid_indexed(
    palette: Seq<Color>,
    indices: Seq<u8>,
    width: u32,
    height: u32,
) -> bool {
    &&& indices.len() == width * height
    &&& forall|p: int| 0 <= p < indices.len() ==> (#[trigger] indices[p]) < palette.len()
}

/// The raster a palette and an index stream rebuild to: byte `i` comes
/// from the palette entry of pixel `i / 4`.
pub open spec fn spec_remapped(palette: Seq<Color>, indices: Seq<u8>) -> Seq<u8> {
    Seq::new(
        4 * indices.len(),
        |i: int| color_seq(palette[indices[i / 4] as int])[i % 4],
    )
}

/// Rebuilds the full RGBA raster from a palette and a per-pixel index
/// stream: pixel `p` of the result is the palette entry `indices[p]`.
/// Returns the quantization failure, and only then, when the index stream
/// does not hold exactly one in-range palette index per pixel.
pub fn remap_indexed(palette: &Vec<Color>, indices: &Vec<u8>, width: u32, height: u32) -> (r:
    Result<Vec<u8>, PosterError>)
    requires
        4 * width * height <= usize::MAX,
    ensures
        (r matches Ok(_)) <==> valid_indexed(palette@, indices@, width, height),
        r matches Ok(v) ==> v@ == spec_remapped(palette@, indices@),
        r matches Ok(v) ==> v@.len() == 4 * width * height && forall|p: int|
            0 <= p < width * height ==> #[trigger] v@.subrange(4 * p, 4 * p + 4) == color_seq(
                palette@[indices@[p] as int],
            ),
        r matches Err(e) ==> e == PosterError::QuantizationFailure,
{
    proof {
        assert(4 * ((width as int) * (height as int)) == 4 * width * height) by (nonlinear_arith);
    }
    let count: usize = ((width as u64) * (height as u64)) as usize;
    if indices.len() != count {
        return Err(PosterError::QuantizationFailure);
    }
    let mut p: usize = 0;
    while p < count
        invariant
            count == (width as int) * (height as int),
            indices@.len() == count,
            p <= count,
            forall|q: int| 0 <= q < p ==> (#[trigger] indices@[q]) < palette@.len(),
        decreases count - p,
    {
        if indices[p] as usize >= palette.len() {
            return Err(PosterError::QuantizationFailure);
        }
        p = p + 1;
    }
    let mut out: Vec<u8> = Vec::new();
    let mut p: usize = 0;
    while p < count
        invariant
            count == (width as int) * (height as int),
            4 * count <= usize::MAX,
            indices@.len() == count,
            forall|q: int| 0 <= q < count ==> (#[trigger] indices@[q]) < palette@.len(),
            p <= count,
            out@.len() == 4 * p,
            forall|q: int|
                0 <= q < p ==> #[trigger] out@.subrange(4 * q, 4 * q + 4) == color_seq(
                    palette@[indices@[q] as int],
                ),
        decreases count - p,
    {
        let ghost before = out@;
        let c = palette[indices[p] as usize];
        out.push(c.r);
        out.push(c.g);
        out.push(c.b);
        out.push(c.a);
        proof {
            assert(out@ =~= before + color_seq(palette@[indices@[p as int] as int]));
            assert forall|q: int| 0 <= q < p + 1 implies #[trigger] out@.subrange(
                4 * q,
                4 * q + 4,
            ) == color_seq(palette@[indices@[q] as int]) by {
                if q < p {
                    assert(out@.subrange(4 * q, 4 * q + 4) =~= before.subrange(4 * q, 4 * q + 4));
                } else {
                    assert(out@.subrange(4 * q, 4 * q + 4) =~= color_seq(
                        palette@[indices@[q] as int],
                    ));
                }
            }
        }
        p = p + 1;
    }
    proof {
        assert forall|i: int| 0 <= i < out@.len() implies out@[i] == spec_remapped(
            palette@,
            indices@,
        )[i] by {
            let q = i / 4;
            let c = i % 4;
            assert(i == 4 * q + c && 0 <= c < 4);
            assert(0 <= q < count) by (nonlinear_arith)
                requires
                    0 <= i < 4 * count,
                    q == i / 4,
            ;
            assert(out@.subrange(4 * q, 4 * q + 4) == color_seq(palette@[indices@[q] as int]));
            assert(out@[i] == out@.subrange(4 * q, 4 * q + 4)[c]);
        }
        assert(out@ =~= spec_remapped(palette@, indices@));
    }
    Ok(out)
}

/// The distinct pixel colors of the first `count` pixels of an RGBA
/// buffer.
pub open spec fn pixel_color_set(data: Seq<u8>, count: int) -> Set<Seq<u8>> {
    Set::new(
        |c: Seq<u8>|
            exists|p: int| 0 <= p < count && #[trigger] data.subrange(4 * p, 4 * p + 4) == c,
    )
}

/// A remapped raster shows at most as many distinct colors as the palette
/// has entries: every pixel is a palette color, so the set of colors in
/// the buffer embeds into the palette.
pub proof fn lemma_remap_color_count(data: Seq<u8>, palette: Seq<Color>, count: int)
    requires
        forall|p: int|
            0 <= p < count ==> exists|k: int|
                0 <= k < palette.len() && #[trigger] data.subrange(4 * p, 4 * p + 4) == color_seq(
                    palette[k],
                ),
    ensures
        pixel_color_set(data, count).finite(),
        pixel_color_set(data, count).len() <= palette.len(),
{
    broadcast use vstd::seq_lib::seq_to_set_is_finite;

    let cs = pixel_color_set(data, count);
    let pal_seq = palette.map_values(|c: Color| color_seq(c));
    let ps = pal_seq.to_set();
    assert forall|c: Seq<u8>| cs.contains(c) implies ps.contains(c) by {
        let p = choose|p: int| 0 <= p < count && #[trigger] data.subrange(4 * p, 4 * p + 4) == c;
        let k = choose|k: int|
            0 <= k < palette.len() && data.subrange(4 * p, 4 * p + 4) == color_seq(
                #[trigger] palette[k],
            );
        assert(pal_seq[k] == c);
        assert(pal_seq.contains(c));
    }
    pal_seq.lemma_cardinality_of_set();
    vstd::set_lib::lemma_len_subset(cs, ps);
}

/// The lossless PNG encoding of an RGBA raster, a pure function of the
/// pixels and dimensions.
pub uninterp spec fn png_bytes_of(pixels: Seq<u8>, width: u32, height: u32) -> Seq<u8>;

/// Relies on image's PNG encoder (PngEncoder::write_image): a
/// deterministic, lossless encoding of an RGBA buffer whose length
/// matches the dimensions exactly. On such a buffer with nonzero
/// dimensions the call cannot fail: the only error paths are a
/// buffer-length mismatch and an unsupported color type, both excluded
/// here, and the sink is an in-memory vector.
#[verifier::external_body]
fn png_encode_rgba(pixels: &Vec<u8>, width: u32, height: u32) -> (r: Vec<u8>)
    requires
        pixels@.len() == 4 * width * height,
        width >= 1,
        height >= 1,
    ensures
        r@ == png_bytes_of(pixels@, width, height),
{
    let mut out: Vec<u8> = Vec::new();
    let encoder = image::codecs::png::PngEncoder::new(&mut out);
    image::ImageEncoder::write_image(encoder, pixels, width, height, image::ColorType::Rgba8)
        .expect("encoding a well-sized RGBA buffer to memory cannot fail");
    out
}

/// Whether the re-optimization pass accepts a byte stream at a preset.
/// Acceptance is a pure function of the two: the presets set no timeout,
/// and the only failures are in parsing and re-coding the input.
pub uninterp spec fn optimizer_accepts(data: Seq<u8>, preset: u8) -> bool;

/// Relies on oxipng::optimize_from_memory: the generic lossless
/// re-optimization pass (filter selection, recompression) over an encoded
/// PNG stream. Whether it succeeds depends on the bytes and the preset
/// alone; the bytes it produces are left unspecified, because its
/// tie-break between equally small candidates follows thread scheduling.
#[verifier::external_body]
fn optimize_png(data: &Vec<u8>, preset: u8) -> (r: Result<Vec<u8>, String>)
    ensures
        r is Ok <==> optimizer_accepts(data@, preset),
{
    let options = oxipng::Options::from_preset(preset);
    match oxipng::optimize_from_memory(data, &options) {
        Ok(v) => Ok(v),
        Err(e) => Err(format!("{e}")),
    }
}

/// The whole palette post-processing tail: rebuilds the raster from the
/// palette and index stream, encodes it as a lossless PNG and runs the
/// re-optimization pass. It succeeds exactly when the index stream is
/// well formed and the optimizer accepts the encoded raster — which
/// raster is fixed byte for byte by the palette, the indices and the
/// dimensions; every failure surfaces as the quantization failure.
pub fn quantized_png(
    palette: &Vec<Color>,
    indices: &Vec<u8>,
    width: u32,
    height: u32,
    preset: u8,
) -> (r: Result<Vec<u8>, PosterError>)
    requires
        4 * width * height <= usize::MAX,
        width >= 1,
        height >= 1,
    ensures
        r is Ok <==> valid_indexed(palette@, indices@, width, height) && optimizer_accepts(
            png_bytes_of(spec_remapped(palette@, indices@), width, height),
            preset,
        ),
        r matches Err(e) ==> e == PosterError::QuantizationFailure,
{
    let rgba = match remap_indexed(palette, indices, width, height) {
        Ok(v) => v,
        Err(e) => {
            return Err(e);
        },
    };
    let png = png_encode_rgba(&rgba, width, height);
    match optimize_png(&png, preset) {
        Ok(v) => Ok(v),
        Err(_) => Err(PosterError::QuantizationFailure),
    }
}

} // verus!
