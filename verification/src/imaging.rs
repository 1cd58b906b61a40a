//! Raster buffers and the image codec boundary.
//!
//! The pipeline works on owned RGBA byte buffers (`RgbaBuffer`).  Decoding,
//! resizing and PNG encoding are delegated to image-codec crates behind
//! trusted wrappers whose results are named, uninterpreted functions of
//! their inputs: each is deterministic, so every contract downstream pins
//! its output as a function of the pipeline's inputs.  Cropping is done
//! here, pixel by pixel, and is fully verified.

use vstd::prelude::*;

use image::ImageEncoder;

use crate::color::Color;
use crate::error::Error;
use crate::geometry::fallback_crop;
use crate::geometry::fit_dims;
use crate::geometry::force_square;
use crate::geometry::geom_from_str;
use crate::geometry::scaled_size;
use crate::geometry::spec_fallback_crop;
use crate::geometry::spec_fit_dims;
use crate::geometry::spec_force_square;
use crate::geometry::spec_geom_from_str;
use crate::geometry::spec_scaled_size;
use crate::recolor::recolor_direct;
use crate::recolor::recolor_masked;
use crate::recolor::spec_recolor_direct;
use crate::recolor::spec_recolor_masked;

verus! {

/// An owned RGBA8 pixel buffer with its dimensions.
pub struct RgbaBuffer {
    pub width: u32,
    pub height: u32,
    pub data: Vec<u8>,
}

impl RgbaBuffer {
    /// Well-formed: four bytes for every pixel.
    pub open spec fn wf(&self) -> bool {
        self.data@.len() == 4 * self.width * self.height
    }
}

/// What decoding an encoded image to RGBA8 yields: width, height and pixel
/// bytes, or nothing when the bytes are not a decodable image.  Decoding is
/// a function of the input bytes alone.
pub uninterp spec fn spec_decode_rgba(bytes: Seq<u8>) -> Option<(u32, u32, Seq<u8>)>;

/// What resampling an RGBA8 buffer from `sw x sh` to `dw x dh` yields, or
/// nothing when the resampler declines.  Both whether it succeeds and the
/// output are functions of the pixels and the two sizes alone.
pub uninterp spec fn spec_resize_rgba(data: Seq<u8>, sw: u32, sh: u32, dw: u32, dh: u32) -> Option<
    Seq<u8>,
>;

/// What PNG-encoding an RGBA8 buffer yields, or nothing when the encoder
/// declines (it rejects zero dimensions, for instance).  Both whether it
/// succeeds and the output are functions of the pixels and dimensions
/// alone.
pub uninterp spec fn spec_encode_png(data: Seq<u8>, w: u32, h: u32) -> Option<Seq<u8>>;

/// Relies on `image::load_from_memory` and `DynamicImage::to_rgba8`:
/// decoding is deterministic in the input bytes, and a decoded RGBA8 buffer
/// holds exactly `4 * width * height` bytes.
#[verifier::external_body]
fn decode_rgba_raw(bytes: &[u8]) -> (r: Option<RgbaBuffer>)
    ensures
        match r {
            Some(img) => spec_decode_rgba(bytes@) == Some((img.width, img.height, img.data@))
                && img.wf(),
            None => spec_decode_rgba(bytes@) is None,
        },
{
    match image::load_from_memory(bytes) {
        Ok(img) => {
            let rgba = img.to_rgba8();
            let (width, height) = rgba.dimensions();
            Some(RgbaBuffer { width, height, data: rgba.into_raw() })
        },
        Err(_) => None,
    }
}

/// Relies on `fast_image_resize::Resizer::resize` with `U8x4` pixels on
/// both sides and default options: success and result are functions of the
/// source pixels and sizes alone (the crate pins identical results across
/// CPU extensions), and the destination buffer holds `4 * dw * dh` bytes.
#[verifier::external_body]
fn resize_rgba_raw(src: &RgbaBuffer, dw: u32, dh: u32) -> (r: Option<RgbaBuffer>)
    requires
        src.wf(),
    ensures
        match r {
            Some(img) => img.width == dw && img.height == dh && img.wf() && spec_resize_rgba(
                src.data@,
                src.width,
                src.height,
                dw,
                dh,
            ) == Some(img.data@),
            None => spec_resize_rgba(src.data@, src.width, src.height, dw, dh) is None,
        },
{
    let view = fast_image_resize::images::Image::from_vec_u8(
        src.width,
        src.height,
        src.data.clone(),
        fast_image_resize::PixelType::U8x4,
    ).ok()?;
    let mut dest = fast_image_resize::images::Image::new(dw, dh, fast_image_resize::PixelType::U8x4);
    fast_image_resize::Resizer::new().resize(&view, &mut dest, None).ok()?;
    Some(RgbaBuffer { width: dw, height: dh, data: dest.into_vec() })
}

/// Relies on `image::codecs::png::PngEncoder::write_image` over an
/// in-memory writer: success and output are deterministic in the pixels
/// and dimensions.  The well-formedness precondition matches the encoder's
/// own buffer-length requirement.
#[verifier::external_body]
fn encode_png_raw(img: &RgbaBuffer) -> (r: Option<Vec<u8>>)
    requires
        img.wf(),
    ensures
        match r {
            Some(v) => spec_encode_png(img.data@, img.width, img.height) == Some(v@),
            None => spec_encode_png(img.data@, img.width, img.height) is None,
        },
{
    let mut out: Vec<u8> = Vec::new();
    let encoder = image::codecs::png::PngEncoder::new(&mut out);
    match encoder.write_image(
        &img.data,
        img.width,
        img.height,
        image::ExtendedColorType::Rgba8,
    ) {
        Ok(()) => Some(out),
        Err(_) => None,
    }
}

/// The `w x h` rectangle of `s` (an RGBA8 buffer `src_w` pixels wide) whose
/// top-left corner sits at `(x, y)`, row by row.
pub open spec fn spec_crop_rgba(s: Seq<u8>, src_w: u32, x: u32, y: u32, w: u32, h: u32) -> Seq<
    u8,
> {
    Seq::new(
        (4 * w * h) as nat,
        |i: int|
            {
                let p = i / 4;
                let row = p / (w as int);
                let col = p % (w as int);
                s[4 * ((y + row) * src_w + (x + col)) + i % 4]
            },
    )
}

/// Copies the `w x h` rectangle at `(x, y)` out of a buffer.  Verified
/// pixel-exact; the codec crates never see the crop.
pub fn crop_rgba(src: &RgbaBuffer, x: u32, y: u32, w: u32, h: u32) -> (r: RgbaBuffer)
    requires
        src.wf(),
        x + w <= src.width,
        y + h <= src.height,
    ensures
        r.wf(),
        r.width == w,
        r.height == h,
        r.data@ == spec_crop_rgba(src.data@, src.width, x, y, w, h),
{
    let ghost target = spec_crop_rgba(src.data@, src.width, x, y, w, h);
    let src_len = src.data.len();
    let mut out: Vec<u8> = Vec::new();
    let mut row: u32 = 0;
    while row < h
        invariant
            src.wf(),
            src_len == src.data@.len(),
            x + w <= src.width,
            y + h <= src.height,
            row <= h,
            target == spec_crop_rgba(src.data@, src.width, x, y, w, h),
            target.len() == 4 * w * h,
            out@.len() == 4 * ((w as int) * (row as int)),
            forall|i: int| 0 <= i < out@.len() ==> out@[i] == target[i],
        decreases h - row,
    {
        let mut col: u32 = 0;
        while col < w
            invariant
                src.wf(),
                src_len == src.data@.len(),
                x + w <= src.width,
                y + h <= src.height,
                row < h,
                col <= w,
                target == spec_crop_rgba(src.data@, src.width, x, y, w, h),
                target.len() == 4 * w * h,
                out@.len() == 4 * ((w as int) * (row as int) + col as int),
                forall|i: int| 0 <= i < out@.len() ==> out@[i] == target[i],
            decreases w - col,
        {
            let ghost p = (w as int) * (row as int) + col as int;
            let ghost sw = src.width as int;
            let ghost sh = src.height as int;
            let ghost yr = y as int + row as int;
            let ghost xc = x as int + col as int;
            let ghost t = yr * sw + xc;
            proof {
                assert(t + 1 <= sw * sh) by (nonlinear_arith)
                    requires
                        t == yr * sw + xc,
                        0 <= yr < sh,
                        0 <= xc < sw,
                ;
                assert((4 * sw) * sh == 4 * (sw * sh)) by (nonlinear_arith);
                assert(src.data@.len() == 4 * sw * sh);
                assert(4 * t + 4 <= src.data@.len());
                assert(4 * p + 4 <= 4 * w * h) by (nonlinear_arith)
                    requires
                        p == (w as int) * (row as int) + col as int,
                        0 <= col < w,
                        0 <= row < h,
                ;
            }
            let base: u64 = 4 * ((y as u64 + row as u64) * src.width as u64 + (x as u64
                + col as u64));
            proof {
                assert(base == 4 * t);
                assert(base + 4 <= src.data@.len());
            }
            let b0 = src.data[base as usize];
            let b1 = src.data[base as usize + 1];
            let b2 = src.data[base as usize + 2];
            let b3 = src.data[base as usize + 3];
            out.push(b0);
            out.push(b1);
            out.push(b2);
            out.push(b3);
            proof {
                assert(p == (row as int) * (w as int) + (col as int)) by (nonlinear_arith)
                    requires
                        p == (w as int) * (row as int) + (col as int),
                ;
                vstd::arithmetic::div_mod::lemma_fundamental_div_mod_converse(
                    p,
                    w as int,
                    row as int,
                    col as int,
                );
                assert(out@[4 * p + 0] == target[4 * p + 0]);
                assert(out@[4 * p + 1] == target[4 * p + 1]);
                assert(out@[4 * p + 2] == target[4 * p + 2]);
                assert(out@[4 * p + 3] == target[4 * p + 3]);
            }
            col += 1;
        }
        row += 1;
        proof {
            assert((w as int) * (row - 1) + w as int == (w as int) * (row as int))
                by (nonlinear_arith);
        }
    }
    proof {
        assert(4 * ((w as int) * (h as int)) == (4 * w) * h) by (nonlinear_arith);
        assert(out@.len() == target.len());
        assert(out@ =~= target);
    }
    RgbaBuffer { width: w, height: h, data: out }
}

/// The first placeholder colour baked into the direct-replace logo template.
pub open spec fn spec_placeholder_one() -> Color {
    Color { r: 0x7eu8, g: 0xbau8, b: 0xe4u8, a: 255u8 }
}

/// The second placeholder colour baked into the direct-replace logo
/// template.
pub open spec fn spec_placeholder_two() -> Color {
    Color { r: 0x52u8, g: 0x77u8, b: 0xc3u8, a: 255u8 }
}

/// Exec value of the first template placeholder colour.
pub fn placeholder_one() -> (c: Color)
    ensures
        c == spec_placeholder_one(),
{
    Color { r: 0x7e, g: 0xba, b: 0xe4, a: 255 }
}

/// Exec value of the second template placeholder colour.
pub fn placeholder_two() -> (c: Color)
    ensures
        c == spec_placeholder_two(),
{
    Color { r: 0x52, g: 0x77, b: 0xc3, a: 255 }
}

/// The requested logo side length: the explicit size if given, else the
/// larger built-in default when the auxiliary challenge block is shown,
/// else the smaller one.
pub open spec fn spec_logo_side(image_size: Option<u32>, challenge: bool, big: u32, small: u32) -> u32 {
    match image_size {
        Some(s) => s,
        None => if challenge {
            big
        } else {
            small
        },
    }
}

/// Exec value of `spec_logo_side`.
pub fn logo_side(image_size: Option<u32>, challenge: bool, big: u32, small: u32) -> (r: u32)
    ensures
        r == spec_logo_side(image_size, challenge, big, small),
{
    match image_size {
        Some(s) => s,
        None => if challenge {
            big
        } else {
            small
        },
    }
}

/// A buffer's byte count is a multiple of four.
proof fn lemma_wf_len_multiple(img: &RgbaBuffer)
    requires
        img.wf(),
    ensures
        img.data@.len() % 4 == 0,
{
    let a = img.width as int;
    let b = img.height as int;
    let wh = a * b;
    assert((4 * a) * b == wh * 4) by (nonlinear_arith)
        requires
            wh == a * b,
    ;
    vstd::arithmetic::div_mod::lemma_mod_multiples_basic(wh, 4);
}

/// The source bytes decode to an image with at least one pixel, so the
/// recolouring and wallpaper pipelines can work on them.
pub open spec fn spec_source_decodes(bytes: Seq<u8>) -> bool {
    match spec_decode_rgba(bytes) {
        Some((w, h, _)) => w > 0 && h > 0,
        None => false,
    }
}

/// Resample and encode, the shared tail of every pipeline: nothing as soon
/// as either codec step declines.
pub open spec fn spec_resize_then_encode(data: Seq<u8>, sw: u32, sh: u32, dw: u32, dh: u32) -> Option<
    Seq<u8>,
> {
    match spec_resize_rgba(data, sw, sh, dw, dh) {
        None => None,
        Some(resized) => spec_encode_png(resized, dw, dh),
    }
}

/// What the direct-replace logo pipeline produces from the template bytes,
/// the two selected colours and the final side length: decode, recolour the
/// placeholder regions, fit to the target box, resample, and PNG-encode.
/// Nothing when the template does not decode to a non-empty image or when
/// a codec step declines.
pub open spec fn spec_waifu1_png(bytes: Seq<u8>, c1: Color, c2: Color, target: u32) -> Option<
    Seq<u8>,
> {
    match spec_decode_rgba(bytes) {
        None => None,
        Some((w, h, data)) => {
            if w == 0 || h == 0 {
                None
            } else {
                let recolored = spec_recolor_direct(
                    data,
                    spec_placeholder_one(),
                    spec_placeholder_two(),
                    c1,
                    c2,
                );
                let dims = spec_fit_dims(w, h, target, target);
                spec_resize_then_encode(recolored, w, h, dims.0, dims.1)
            }
        },
    }
}

/// Recolours the direct-replace logo template with the selected pair and
/// produces the PNG bytes to display.  Fails with `AssetIo` exactly when
/// the template bytes do not decode to a non-empty image, and with `Encode`
/// exactly when they do but the resampler or encoder declines.
pub fn waifu1_image(
    template_png: &[u8],
    c1: Color,
    c2: Color,
    image_size: Option<u32>,
    challenge: bool,
    scale_milli: u32,
) -> (r: Result<Vec<u8>, Error>)
    ensures
        ({
            let target = spec_scaled_size(
                spec_logo_side(image_size, challenge, 380u32, 300u32),
                scale_milli,
            );
            match r {
                Ok(png) => spec_waifu1_png(template_png@, c1, c2, target) == Some(png@),
                Err(e) => match e {
                    Error::AssetIo => !spec_source_decodes(template_png@),
                    Error::Encode => spec_source_decodes(template_png@) && spec_waifu1_png(
                        template_png@,
                        c1,
                        c2,
                        target,
                    ) is None,
                    _ => false,
                },
            }
        }),
{
    let img = match decode_rgba_raw(template_png) {
        Some(i) => i,
        None => {
            return Err(Error::AssetIo);
        },
    };
    if img.width == 0 || img.height == 0 {
        return Err(Error::AssetIo);
    }
    proof {
        lemma_wf_len_multiple(&img);
    }
    let RgbaBuffer { width, height, data: mut data } = img;
    recolor_direct(&mut data, placeholder_one(), placeholder_two(), c1, c2);
    let recolored = RgbaBuffer { width, height, data };
    let side = logo_side(image_size, challenge, 380, 300);
    let target = scaled_size(side, scale_milli);
    let dims = fit_dims(width, height, target, target);
    let resized = match resize_rgba_raw(&recolored, dims.0, dims.1) {
        Some(i) => i,
        None => {
            return Err(Error::Encode);
        },
    };
    match encode_png_raw(&resized) {
        Some(v) => Ok(v),
        None => Err(Error::Encode),
    }
}

/// The template and both masks decode, the template is non-empty, and the
/// masks share its dimensions.
pub open spec fn spec_masked_sources_decode(bytes: Seq<u8>, mask1: Seq<u8>, mask2: Seq<u8>) -> bool {
    match (spec_decode_rgba(bytes), spec_decode_rgba(mask1), spec_decode_rgba(mask2)) {
        (Some((w, h, _)), Some((w1, h1, _)), Some((w2, h2, _))) => w > 0 && h > 0 && w1 == w && h1
            == h && w2 == w && h2 == h,
        _ => false,
    }
}

/// What the mask-based logo pipeline produces from the template and two
/// mask images: decode all three, require equal dimensions, classify
/// through the masks, fit, resample and encode.  Nothing when a source is
/// unusable or a codec step declines.
pub open spec fn spec_waifu2_png(
    bytes: Seq<u8>,
    mask1: Seq<u8>,
    mask2: Seq<u8>,
    c1: Color,
    c2: Color,
    target: u32,
) -> Option<Seq<u8>> {
    match (spec_decode_rgba(bytes), spec_decode_rgba(mask1), spec_decode_rgba(mask2)) {
        (Some((w, h, data)), Some((w1, h1, d1)), Some((w2, h2, d2))) => {
            if w == 0 || h == 0 || w1 != w || h1 != h || w2 != w || h2 != h {
                None
            } else {
                let recolored = spec_recolor_masked(data, d1, d2, c1, c2);
                let dims = spec_fit_dims(w, h, target, target);
                spec_resize_then_encode(recolored, w, h, dims.0, dims.1)
            }
        },
        _ => None,
    }
}

/// Recolours the mask-based logo template with the selected pair and
/// produces the PNG bytes to display.  Fails with `AssetIo` exactly when
/// the template or a mask does not decode to a non-empty image of the
/// template's dimensions, and with `Encode` exactly when the sources are
/// usable but the resampler or encoder declines.
pub fn waifu2_image(
    template_png: &[u8],
    mask1_bytes: &[u8],
    mask2_bytes: &[u8],
    c1: Color,
    c2: Color,
    image_size: Option<u32>,
    challenge: bool,
    scale_milli: u32,
) -> (r: Result<Vec<u8>, Error>)
    ensures
        ({
            let target = spec_scaled_size(
                spec_logo_side(image_size, challenge, 350u32, 270u32),
                scale_milli,
            );
            match r {
                Ok(png) => spec_waifu2_png(template_png@, mask1_bytes@, mask2_bytes@, c1, c2, target)
                    == Some(png@),
                Err(e) => match e {
                    Error::AssetIo => !spec_masked_sources_decode(
                        template_png@,
                        mask1_bytes@,
                        mask2_bytes@,
                    ),
                    Error::Encode => spec_masked_sources_decode(
                        template_png@,
                        mask1_bytes@,
                        mask2_bytes@,
                    ) && spec_waifu2_png(
                        template_png@,
                        mask1_bytes@,
                        mask2_bytes@,
                        c1,
                        c2,
                        target,
                    ) is None,
                    _ => false,
                },
            }
        }),
{
    let img = match decode_rgba_raw(template_png) {
        Some(i) => i,
        None => {
            return Err(Error::AssetIo);
        },
    };
    let m1 = match decode_rgba_raw(mask1_bytes) {
        Some(i) => i,
        None => {
            return Err(Error::AssetIo);
        },
    };
    let m2 = match decode_rgba_raw(mask2_bytes) {
        Some(i) => i,
        None => {
            return Err(Error::AssetIo);
        },
    };
    if img.width == 0 || img.height == 0 || m1.width != img.width || m1.height != img.height
        || m2.width != img.width || m2.height != img.height {
        return Err(Error::AssetIo);
    }
    proof {
        lemma_wf_len_multiple(&img);
    }
    let RgbaBuffer { width, height, data: mut data } = img;
    recolor_masked(&mut data, &m1.data, &m2.data, c1, c2);
    let recolored = RgbaBuffer { width, height, data };
    let side = logo_side(image_size, challenge, 350, 270);
    let target = scaled_size(side, scale_milli);
    let dims = fit_dims(width, height, target, target);
    let resized = match resize_rgba_raw(&recolored, dims.0, dims.1) {
        Some(i) => i,
        None => {
            return Err(Error::Encode);
        },
    };
    match encode_png_raw(&resized) {
        Some(v) => Ok(v),
        None => Err(Error::Encode),
    }
}

/// The whole render is a function of its inputs: two successful runs of a
/// recolouring or wallpaper pipeline on the same inputs produce the same
/// PNG bytes — there is no hidden randomness anywhere in the pipelines.
pub proof fn lemma_pipelines_deterministic(
    bytes: Seq<u8>,
    mask1: Seq<u8>,
    mask2: Seq<u8>,
    c1: Color,
    c2: Color,
    crop_arg: Option<Seq<char>>,
    target: u32,
    r1: Seq<u8>,
    r2: Seq<u8>,
)
    ensures
        spec_waifu1_png(bytes, c1, c2, target) == Some(r1) && spec_waifu1_png(
            bytes,
            c1,
            c2,
            target,
        ) == Some(r2) ==> r1 == r2,
        spec_waifu2_png(bytes, mask1, mask2, c1, c2, target) == Some(r1) && spec_waifu2_png(
            bytes,
            mask1,
            mask2,
            c1,
            c2,
            target,
        ) == Some(r2) ==> r1 == r2,
        spec_wallpaper_png(bytes, crop_arg, target) == Some(r1) && spec_wallpaper_png(
            bytes,
            crop_arg,
            target,
        ) == Some(r2) ==> r1 == r2,
{
}

/// The crop rectangle the wallpaper pipeline settles on: an explicit
/// geometry argument wins when it parses, forced square; anything invalid
/// or out of the image's bounds falls back to the centred square.
pub open spec fn spec_resolved_crop(w: u32, h: u32, crop_arg: Option<Seq<char>>) -> (
    u32,
    u32,
    u32,
    u32,
) {
    let fallback = spec_fallback_crop(w, h);
    let chosen = match crop_arg {
        Some(s) => match spec_geom_from_str(s) {
            Some(g) => spec_force_square(g),
            None => fallback,
        },
        None => fallback,
    };
    if chosen.0 > 0 && chosen.2 + chosen.0 <= w && chosen.3 + chosen.0 <= h {
        chosen
    } else {
        fallback
    }
}

/// What the wallpaper pipeline produces: decode the source, crop it to the
/// resolved square, resample to the scaled target square, and PNG-encode.
/// Nothing when the source does not decode to a non-empty image or when a
/// codec step declines.
pub open spec fn spec_wallpaper_png(bytes: Seq<u8>, crop_arg: Option<Seq<char>>, target: u32) -> Option<
    Seq<u8>,
> {
    match spec_decode_rgba(bytes) {
        None => None,
        Some((w, h, data)) => {
            if w == 0 || h == 0 {
                None
            } else {
                let c = spec_resolved_crop(w, h, crop_arg);
                let cropped = spec_crop_rgba(data, w, c.2, c.3, c.0, c.1);
                spec_resize_then_encode(cropped, c.0, c.1, target, target)
            }
        },
    }
}

/// Crops a wallpaper to a square and resamples it to the scaled target
/// size, producing the PNG bytes to display.  Fails with `AssetIo` exactly
/// when the source bytes do not decode to a non-empty image, and with
/// `Encode` exactly when they do but the resampler or encoder declines.
pub fn resize_wallpaper_image(
    bytes: &[u8],
    crop_arg: Option<&str>,
    image_size: Option<u32>,
    challenge: bool,
    scale_milli: u32,
) -> (r: Result<Vec<u8>, Error>)
    ensures
        ({
            let crop_spec: Option<Seq<char>> = match crop_arg {
                Some(s) => Some(s@),
                None => None,
            };
            let target = spec_scaled_size(
                spec_logo_side(image_size, challenge, 350u32, 270u32),
                scale_milli,
            );
            match r {
                Ok(png) => spec_wallpaper_png(bytes@, crop_spec, target) == Some(png@),
                Err(e) => match e {
                    Error::AssetIo => !spec_source_decodes(bytes@),
                    Error::Encode => spec_source_decodes(bytes@) && spec_wallpaper_png(
                        bytes@,
                        crop_spec,
                        target,
                    ) is None,
                    _ => false,
                },
            }
        }),
{
    let img = match decode_rgba_raw(bytes) {
        Some(i) => i,
        None => {
            return Err(Error::AssetIo);
        },
    };
    if img.width == 0 || img.height == 0 {
        return Err(Error::AssetIo);
    }
    let fallback = fallback_crop(img.width, img.height);
    let chosen = match crop_arg {
        Some(s) => match geom_from_str(s) {
            Some(g) => force_square(g),
            None => fallback,
        },
        None => fallback,
    };
    let c = if chosen.0 > 0 && chosen.2 as u64 + chosen.0 as u64 <= img.width as u64
        && chosen.3 as u64 + chosen.0 as u64 <= img.height as u64 {
        chosen
    } else {
        fallback
    };
    proof {
        assert(c == spec_resolved_crop(
            img.width,
            img.height,
            match crop_arg {
                Some(s) => Some(s@),
                None => None::<Seq<char>>,
            },
        ));
    }
    let cropped = crop_rgba(&img, c.2, c.3, c.0, c.1);
    let side = logo_side(image_size, challenge, 350, 270);
    let target = scaled_size(side, scale_milli);
    let resized = match resize_rgba_raw(&cropped, target, target) {
        Some(i) => i,
        None => {
            return Err(Error::Encode);
        },
    };
    match encode_png_raw(&resized) {
        Some(v) => Ok(v),
        None => Err(Error::Encode),
    }
}

} // verus!
