//! Inbound images are kept small.
//!
//! An image travels inside its message, in base64. One whose text is too long is
//! decoded, scaled down and encoded anew as JPEG, at the best quality that makes
//! it short enough. One that is short enough is left alone: compression loses
//! detail.
use crate::message::{ImageContent, ImageContentView};
use crate::model::{empty_list, push_item, Dup};
use base64::Engine;
use vstd::prelude::*;
use vstd::string::*;
use vstd::utf8::encode_utf8;

verus! {

/// The longest side of a scaled image, in pixels.
pub const MAX_IMAGE_PIXELS: u32 = 2000;

/// The longest text of an image, in bytes.
pub const MAX_IMAGE_BASE64_BYTES: usize = 5 * 1024 * 1024;

/// A side of an image whose longest side is scaled to the limit: rounded down,
/// but never to nothing.
pub open spec fn scaled_side(side: u32, longest: u32) -> u32 {
    let scaled = side as int * MAX_IMAGE_PIXELS as int / longest as int;
    if scaled < 1 {
        1
    } else {
        scaled as u32
    }
}

/// The size to which an image is scaled: its own where no side is too long,
/// else in proportion, with the longest side at the limit.
pub open spec fn scaled_size(w: u32, h: u32) -> (u32, u32) {
    let longest = if w >= h { w } else { h };
    if longest <= MAX_IMAGE_PIXELS {
        (w, h)
    } else {
        (scaled_side(w, longest), scaled_side(h, longest))
    }
}

/// A side is at most the longest, and so is what it is scaled to.
proof fn lemma_scaled_side(side: u32, longest: u32)
    requires
        side <= longest,
        longest > MAX_IMAGE_PIXELS,
    ensures
        0 <= side as int * MAX_IMAGE_PIXELS as int / longest as int <= MAX_IMAGE_PIXELS,
        side == longest ==> side as int * MAX_IMAGE_PIXELS as int / longest as int
            == MAX_IMAGE_PIXELS,
        1 <= scaled_side(side, longest) <= MAX_IMAGE_PIXELS,
{
    let q = side as int * MAX_IMAGE_PIXELS as int / longest as int;
    assert(0 <= q <= 2000) by (nonlinear_arith)
        requires
            0 <= side <= longest,
            longest > 2000,
            q == side as int * 2000 / longest as int,
    ;
    if side == longest {
        assert(q == 2000) by (nonlinear_arith)
            requires
                longest > 2000,
                q == longest as int * 2000 / longest as int,
        ;
    }
}

/// The size to which an image is scaled.
pub fn scaled_dimensions(w: u32, h: u32) -> (res: (u32, u32))
    ensures
        res == scaled_size(w, h),
{
    let max: u32 = if w >= h {
        w
    } else {
        h
    };
    if max <= MAX_IMAGE_PIXELS {
        return (w, h);
    }
    proof {
        lemma_scaled_side(w, max);
        lemma_scaled_side(h, max);
    }
    let sw: u64 = w as u64 * MAX_IMAGE_PIXELS as u64 / max as u64;
    let sh: u64 = h as u64 * MAX_IMAGE_PIXELS as u64 / max as u64;
    (
        if sw < 1 {
            1
        } else {
            sw as u32
        },
        if sh < 1 {
            1
        } else {
            sh as u32
        },
    )
}

/// No side of a scaled image is longer than the limit; an image that was too
/// long ends with its longest side at the limit and no side at zero; any other
/// keeps its size.
pub proof fn law_scaling_meets_the_limit(w: u32, h: u32)
    ensures
        ({
            let (sw, sh) = scaled_size(w, h);
            &&& sw <= MAX_IMAGE_PIXELS
            &&& sh <= MAX_IMAGE_PIXELS
            &&& (w <= MAX_IMAGE_PIXELS && h <= MAX_IMAGE_PIXELS) ==> (sw, sh) == (w, h)
            &&& (w > MAX_IMAGE_PIXELS && w >= h) ==> sw == MAX_IMAGE_PIXELS && sh >= 1
            &&& (h > MAX_IMAGE_PIXELS && h >= w) ==> sh == MAX_IMAGE_PIXELS && sw >= 1
        }),
{
    let longest = if w >= h { w } else { h };
    if longest > MAX_IMAGE_PIXELS {
        lemma_scaled_side(w, longest);
        lemma_scaled_side(h, longest);
    }
}

/// Scaling a scaled image changes nothing.
pub proof fn law_scaling_is_idempotent(w: u32, h: u32)
    ensures
        scaled_size(scaled_size(w, h).0, scaled_size(w, h).1) == scaled_size(w, h),
{
    law_scaling_meets_the_limit(w, h);
}

/// How many bytes the base64 text of some bytes has, with padding.
pub open spec fn base64_len(n: nat) -> nat {
    (n + 2) / 3 * 4
}

/// The bytes that `base64`'s standard engine reads from a text; `None` where it
/// reads none.
pub uninterp spec fn base64_bytes(s: Seq<char>) -> Option<Seq<u8>>;

/// Calls `base64::engine::general_purpose::STANDARD.decode`. Claims that the
/// outcome is a function of the text alone, named [`base64_bytes`].
#[verifier::external_body]
fn decode_base64(s: &str) -> (res: Option<Vec<u8>>)
    ensures
        res.deep_view() == base64_bytes(s@),
{
    base64::engine::general_purpose::STANDARD.decode(s).ok()
}

/// The text that `base64`'s standard engine writes for some bytes.
pub uninterp spec fn base64_text(bytes: Seq<u8>) -> Seq<char>;

/// Calls `base64::engine::general_purpose::STANDARD.encode`, which panics where
/// the text would be too long to hold. Claims that the text is a function of the
/// bytes alone, named [`base64_text`]; that it takes four bytes for every three,
/// rounded up; and that decoding gives the bytes back.
#[verifier::external_body]
fn encode_base64(bytes: &[u8]) -> (res: String)
    requires
        base64_len(bytes@.len()) <= MAX_IMAGE_BASE64_BYTES,
    ensures
        res@ == base64_text(bytes@),
        encode_utf8(res@).len() == base64_len(bytes@.len()),
        base64_bytes(res@) == Some(bytes@),
{
    base64::engine::general_purpose::STANDARD.encode(bytes)
}

/// A decoded image.
#[verifier::external_type_specification]
#[verifier::external_body]
pub struct ExDynamicImage(image::DynamicImage);

/// The width and the height of a decoded image.
pub uninterp spec fn image_size(img: image::DynamicImage) -> (u32, u32);

/// The pixels of a decoded image, row by row, three bytes each.
pub uninterp spec fn image_rgb(img: image::DynamicImage) -> Seq<u8>;

/// Whether an outcome is one that `image` can come to when it reads some bytes: an
/// image, or `None` where it finds none in them.
pub uninterp spec fn can_load(bytes: Seq<u8>, outcome: Option<image::DynamicImage>) -> bool;

/// Calls `image::load_from_memory`. Claims that the outcome, be it an image or none, is
/// one that the bytes can have, as [`can_load`] says. Not stated is which outcome given
/// bytes have, nor that it is always the same: that depends on the decoders that the
/// process has registered.
#[verifier::external_body]
fn load_image(bytes: &[u8]) -> (res: Option<image::DynamicImage>)
    ensures
        can_load(bytes@, res),
{
    image::load_from_memory(bytes).ok()
}

/// Calls `image::DynamicImage::width` and `height`, which define [`image_size`].
#[verifier::external_body]
fn size_of_image(img: &image::DynamicImage) -> (res: (u32, u32))
    ensures
        res == image_size(*img),
{
    (img.width(), img.height())
}

/// Whether `image` can scale an image, to fit a width and a height, to another.
pub uninterp spec fn can_scale(
    img: image::DynamicImage,
    w: u32,
    h: u32,
    scaled: image::DynamicImage,
) -> bool;

/// Calls `image::DynamicImage::resize` with the Lanczos filter, which panics where
/// the result would be too large to hold. Claims that the result is one that the
/// arguments can give, as [`can_scale`] says, and that it fits in the given size.
/// Its pixels are computed in floating point, with a sine that differs between
/// machines, and are not stated.
#[verifier::external_body]
fn resize_image(img: &image::DynamicImage, w: u32, h: u32) -> (res: image::DynamicImage)
    requires
        0 < w <= MAX_IMAGE_PIXELS,
        0 < h <= MAX_IMAGE_PIXELS,
    ensures
        can_scale(*img, w, h, res),
        image_size(res).0 <= w,
        image_size(res).1 <= h,
{
    img.resize(w, h, image::imageops::FilterType::Lanczos3)
}

/// Calls `image::DynamicImage::to_rgb8`, which defines [`image_rgb`], and takes
/// the buffer out of the result.
#[verifier::external_body]
fn rgb_of_image(img: &image::DynamicImage) -> (res: Vec<u8>)
    ensures
        res@ == image_rgb(*img),
{
    img.to_rgb8().into_raw()
}

/// The JPEG file that `image`'s encoder writes for the pixels, the width and the
/// height of an image, at a quality; `None` where it refuses the size.
pub uninterp spec fn jpeg_bytes(rgb: Seq<u8>, w: u32, h: u32, quality: u8) -> Option<Seq<u8>>;

/// Calls `encode` of `image::codecs::jpeg::JpegEncoder::new_with_quality`, which
/// panics where the pixels do not fill the image. Claims that the outcome is a
/// function of the arguments alone, named [`jpeg_bytes`].
#[verifier::external_body]
fn encode_jpeg(rgb: &[u8], w: u32, h: u32, quality: u8) -> (res: Option<Vec<u8>>)
    requires
        rgb@.len() == 3 * (w as int * h as int),
    ensures
        res.deep_view() == jpeg_bytes(rgb@, w, h, quality),
{
    let mut buf: Vec<u8> = Vec::new();
    let mut encoder = image::codecs::jpeg::JpegEncoder::new_with_quality(&mut buf, quality);
    encoder.encode(rgb, w, h, image::ExtendedColorType::Rgb8).ok()?;
    Some(buf)
}

/// How many qualities are tried.
pub const JPEG_QUALITY_COUNT: usize = 5;

/// The qualities that are tried, best first.
pub open spec fn jpeg_quality_at(i: int) -> u8 {
    if i == 0 {
        85
    } else if i == 1 {
        80
    } else if i == 2 {
        70
    } else if i == 3 {
        55
    } else {
        40
    }
}

/// One of the qualities that are tried.
fn jpeg_quality(i: usize) -> (res: u8)
    ensures
        res == jpeg_quality_at(i as int),
{
    match i {
        0 => 85,
        1 => 80,
        2 => 70,
        3 => 55,
        _ => 40,
    }
}

/// The image that comes of trying the qualities from one on: the first JPEG file
/// whose text is short enough. There is none where the encoder refuses the image
/// or where even the last file is too long.
pub open spec fn compressed_from(rgb: Seq<u8>, w: u32, h: u32, i: int) -> Option<ImageContentView>
    decreases JPEG_QUALITY_COUNT - i,
{
    if i >= JPEG_QUALITY_COUNT {
        None
    } else {
        match jpeg_bytes(rgb, w, h, jpeg_quality_at(i)) {
            None => None,
            Some(bytes) => if base64_len(bytes.len()) <= MAX_IMAGE_BASE64_BYTES {
                Some(
                    ImageContentView { mime_type: "image/jpeg"@, data: base64_text(bytes) },
                )
            } else {
                compressed_from(rgb, w, h, i + 1)
            },
        }
    }
}

/// Pixels as a JPEG image that is short enough.
pub open spec fn compressed(rgb: Seq<u8>, w: u32, h: u32) -> Option<ImageContentView> {
    compressed_from(rgb, w, h, 0)
}

/// Encodes pixels as JPEG, at the best quality that makes the text short enough.
pub fn compress_rgb(rgb: &Vec<u8>, w: u32, h: u32) -> (res: Option<ImageContent>)
    requires
        rgb@.len() == 3 * (w as int * h as int),
    ensures
        res.deep_view() == compressed(rgb@, w, h),
        res is Some ==> encode_utf8(res->0.data@).len() <= MAX_IMAGE_BASE64_BYTES,
        res is Some ==> res->0.mime_type@ == "image/jpeg"@,
{
    let mut i: usize = 0;
    while i < JPEG_QUALITY_COUNT
        invariant
            i <= JPEG_QUALITY_COUNT,
            rgb@.len() == 3 * (w as int * h as int),
            compressed(rgb@, w, h) == compressed_from(rgb@, w, h, i as int),
        decreases JPEG_QUALITY_COUNT - i,
    {
        let bytes = match encode_jpeg(rgb.as_slice(), w, h, jpeg_quality(i)) {
            Some(bytes) => bytes,
            None => {
                return None;
            },
        };
        assert(Some(bytes).deep_view() == Some(bytes@)) by {
            assert(bytes.deep_view() =~= bytes@);
        }
        let n: usize = bytes.len();
        if n <= MAX_IMAGE_BASE64_BYTES && (n + 2) / 3 * 4 <= MAX_IMAGE_BASE64_BYTES {
            let data = encode_base64(bytes.as_slice());
            return Some(ImageContent { mime_type: "image/jpeg".to_owned(), data });
        }
        i += 1;
    }
    None
}

/// Whether an outcome is one of those that a decoded image can have: its pixels
/// compressed, once it has been scaled where a side is too long.
pub open spec fn shrunk(img: image::DynamicImage, res: Option<ImageContentView>) -> bool {
    let (w, h) = image_size(img);
    if scaled_size(w, h) == (w, h) {
        outcome_of(img, res)
    } else {
        exists|scaled: image::DynamicImage|
            {
                &&& can_scale(img, scaled_size(w, h).0, scaled_size(w, h).1, scaled)
                &&& image_size(scaled).0 <= scaled_size(w, h).0
                &&& image_size(scaled).1 <= scaled_size(w, h).1
                &&& #[trigger] outcome_of(scaled, res)
            }
    }
}

/// Whether an outcome is what an image's pixels are compressed to. A buffer that
/// does not fill the image is no image at all.
pub open spec fn outcome_of(img: image::DynamicImage, res: Option<ImageContentView>) -> bool {
    let (w, h) = image_size(img);
    res == if image_rgb(img).len() == 3 * (w as int * h as int) {
        compressed(image_rgb(img), w, h)
    } else {
        None
    }
}

/// Compresses the pixels of an image as they are.
fn compress_image(img: &image::DynamicImage) -> (res: Option<ImageContent>)
    ensures
        outcome_of(*img, res.deep_view()),
        res is Some ==> encode_utf8(res->0.data@).len() <= MAX_IMAGE_BASE64_BYTES,
{
    let (w, h) = size_of_image(img);
    let rgb = rgb_of_image(img);
    assert(0 <= w as int * h as int <= u32::MAX * u32::MAX) by (nonlinear_arith)
        requires
            0 <= w <= u32::MAX,
            0 <= h <= u32::MAX,
    ;
    if rgb.len() as u128 == 3 * (w as u128 * h as u128) {
        compress_rgb(&rgb, w, h)
    } else {
        None
    }
}

/// Scales a decoded image where a side is too long, and compresses it.
pub fn shrink_image(img: image::DynamicImage) -> (res: Option<ImageContent>)
    ensures
        shrunk(img, res.deep_view()),
        res is Some ==> encode_utf8(res->0.data@).len() <= MAX_IMAGE_BASE64_BYTES,
{
    let (w, h) = size_of_image(&img);
    let (nw, nh) = scaled_dimensions(w, h);
    if nw != w || nh != h {
        proof {
            law_scaling_meets_the_limit(w, h);
        }
        let scaled = resize_image(&img, nw, nh);
        compress_image(&scaled)
    } else {
        compress_image(&img)
    }
}

/// Whether an image's text is short enough to be left alone.
pub open spec fn small_enough(img: ImageContentView) -> bool {
    encode_utf8(img.data).len() <= MAX_IMAGE_BASE64_BYTES
}

/// Whether an outcome is one that normalizing an image can have: an image that is
/// small enough stays as it is; any other is lost only where its text cannot be decoded,
/// where no image is found in its bytes, or where it cannot be made small enough.
pub open spec fn normalized(img: ImageContentView, res: Option<ImageContentView>) -> bool {
    if small_enough(img) {
        res == Some(img)
    } else if base64_bytes(img.data) is None {
        res is None
    } else {
        let bytes = base64_bytes(img.data)->0;
        ||| res is None && can_load(bytes, None)
        ||| exists|decoded: image::DynamicImage|
            can_load(bytes, Some(decoded)) && #[trigger] shrunk(decoded, res)
    }
}

/// Makes an image small enough: one that is, is kept as it is; any other becomes
/// a scaled JPEG. `None` where it cannot be decoded or read, or not be made small
/// enough.
pub fn normalize_image(img: &ImageContent) -> (res: Option<ImageContent>)
    ensures
        normalized(img@, res.deep_view()),
        res is Some ==> small_enough(res->0@),
{
    if img.data.as_str().as_bytes().len() <= MAX_IMAGE_BASE64_BYTES {
        return Some(img.dup());
    }
    let bytes = match decode_base64(img.data.as_str()) {
        Some(bytes) => bytes,
        None => {
            return None;
        },
    };
    assert(bytes.deep_view() =~= bytes@);
    let decoded = match load_image(bytes.as_slice()) {
        Some(decoded) => decoded,
        None => {
            return None;
        },
    };
    shrink_image(decoded)
}

/// The images among a row of outcomes, in order.
pub open spec fn kept_images(outcomes: Seq<Option<ImageContentView>>) -> Seq<ImageContentView>
    decreases outcomes.len(),
{
    if outcomes.len() == 0 {
        Seq::empty()
    } else {
        match outcomes.last() {
            Some(img) => kept_images(outcomes.drop_last()).push(img),
            None => kept_images(outcomes.drop_last()),
        }
    }
}

/// How many of a row of outcomes are failures.
pub open spec fn failed_images(outcomes: Seq<Option<ImageContentView>>) -> nat
    decreases outcomes.len(),
{
    if outcomes.len() == 0 {
        0
    } else {
        failed_images(outcomes.drop_last()) + if outcomes.last() is None {
            1nat
        } else {
            0nat
        }
    }
}

/// Every image is either kept or counted as failed.
pub proof fn law_no_image_is_lost(outcomes: Seq<Option<ImageContentView>>)
    ensures
        kept_images(outcomes).len() + failed_images(outcomes) == outcomes.len(),
    decreases outcomes.len(),
{
    if outcomes.len() > 0 {
        law_no_image_is_lost(outcomes.drop_last());
    }
}

/// Whether a row of outcomes can come of normalizing a row of images.
pub open spec fn all_normalized(
    images: Seq<ImageContentView>,
    outcomes: Seq<Option<ImageContentView>>,
) -> bool {
    &&& outcomes.len() == images.len()
    &&& forall|i: int| 0 <= i < images.len() ==> #[trigger] normalized(images[i], outcomes[i])
}

/// Images that are all small enough are all kept, as they are.
pub proof fn law_small_images_are_kept(
    images: Seq<ImageContentView>,
    outcomes: Seq<Option<ImageContentView>>,
)
    requires
        all_normalized(images, outcomes),
        forall|i: int| 0 <= i < images.len() ==> small_enough(#[trigger] images[i]),
    ensures
        kept_images(outcomes) == images,
        failed_images(outcomes) == 0,
    decreases images.len(),
{
    if images.len() > 0 {
        let rest = images.drop_last();
        let rest_outcomes = outcomes.drop_last();
        assert forall|i: int| 0 <= i < rest.len() implies #[trigger] normalized(
            rest[i],
            rest_outcomes[i],
        ) by {
            assert(normalized(images[i], outcomes[i]));
        }
        assert forall|i: int| 0 <= i < rest.len() implies small_enough(#[trigger] rest[i]) by {
            assert(small_enough(images[i]));
        }
        law_small_images_are_kept(rest, rest_outcomes);
        assert(normalized(images.last(), outcomes.last()));
        assert(small_enough(images[images.len() - 1]));
        assert(kept_images(outcomes) =~= images);
    } else {
        assert(kept_images(outcomes) =~= images);
    }
}

/// Normalizes a row of images: those that can be kept, in order, and how many
/// cannot.
pub fn normalize_images(images: &Vec<ImageContent>) -> (res: (Vec<ImageContent>, usize))
    ensures
        exists|outcomes: Seq<Option<ImageContentView>>|
            {
                &&& #[trigger] all_normalized(images.deep_view(), outcomes)
                &&& res.0.deep_view() == kept_images(outcomes)
                &&& res.1 == failed_images(outcomes)
            },
{
    let mut kept: Vec<ImageContent> = empty_list();
    let mut failed: usize = 0;
    let ghost mut outcomes: Seq<Option<ImageContentView>> = Seq::empty();
    let mut i: usize = 0;
    while i < images.len()
        invariant
            i <= images.len(),
            failed <= i,
            outcomes.len() == i,
            forall|j: int|
                0 <= j < i ==> #[trigger] normalized(images.deep_view()[j], outcomes[j]),
            kept.deep_view() == kept_images(outcomes),
            failed == failed_images(outcomes),
        decreases images.len() - i,
    {
        let outcome = normalize_image(&images[i]);
        let ghost before = outcomes;
        proof {
            outcomes = before.push(outcome.deep_view());
            assert(outcomes.drop_last() =~= before);
        }
        match outcome {
            Some(img) => {
                push_item(&mut kept, img);
            },
            None => {
                failed += 1;
            },
        }
        i += 1;
    }
    assert(all_normalized(images.deep_view(), outcomes));
    (kept, failed)
}

// ---- what holds of scaled and compressed images ----

/// Scaling keeps the proportions, for landscape and portrait alike: both sides shrink
/// by the factor that takes the longest side to 2000 pixels, rounded down, but no side
/// vanishes. An image with no side beyond that keeps its size. Turning an image by a
/// right angle turns what it is scaled to.
pub proof fn law_scaling_keeps_proportions(w: u32, h: u32)
    ensures
        ({
            let (sw, sh) = scaled_size(w, h);
            let longest: int = if w >= h {
                w as int
            } else {
                h as int
            };
            &&& longest <= 2000 ==> sw == w && sh == h
            &&& longest > 2000 ==> {
                ||| sw * longest <= w * 2000 < (sw + 1) * longest
                ||| sw == 1 && w * 2000 < longest
            }
            &&& longest > 2000 ==> {
                ||| sh * longest <= h * 2000 < (sh + 1) * longest
                ||| sh == 1 && h * 2000 < longest
            }
            &&& scaled_size(h, w) == (sh, sw)
        }),
{
    let longest = if w >= h { w } else { h };
    if longest > MAX_IMAGE_PIXELS {
        lemma_scaled_side(w, longest);
        lemma_scaled_side(h, longest);
        lemma_side_in_proportion(w, longest);
        lemma_side_in_proportion(h, longest);
    }
}

proof fn lemma_side_in_proportion(side: u32, longest: u32)
    requires
        side <= longest,
        longest > 2000,
    ensures
        ({
            let s = scaled_side(side, longest);
            ||| s * longest <= side * 2000 < (s + 1) * longest
            ||| s == 1 && side * 2000 < longest
        }),
{
    lemma_scaled_side(side, longest);
    let a = side as int * 2000;
    let n = longest as int;
    let q = a / n;
    assert(q * n <= a < (q + 1) * n) by (nonlinear_arith)
        requires
            n > 0,
            q == a / n,
    ;
    if q < 1 {
        assert(a < n) by (nonlinear_arith)
            requires
                a < (q + 1) * n,
                q < 1,
                n > 0,
        ;
    }
}

/// Whether a JPEG file of some pixels at a quality exists and is too long once written
/// in base64, that is, longer than 5 MiB.
pub open spec fn too_long_at(rgb: Seq<u8>, w: u32, h: u32, quality: u8) -> bool {
    jpeg_bytes(rgb, w, h, quality) is Some && (jpeg_bytes(rgb, w, h, quality)->0.len() + 2) / 3 * 4
        > 5242880
}

/// The qualities of a JPEG file that will do, best first.
pub open spec fn best_first() -> Seq<u8> {
    seq![85u8, 80, 70, 55, 40]
}

/// Whether what pixels are compressed to is right, if the first of some qualities that
/// does not give too long a text stands at a place: the JPEG file of that quality, in
/// base64; or nothing where there is no such file.
pub open spec fn stops_at(
    rgb: Seq<u8>,
    w: u32,
    h: u32,
    i: int,
    res: Option<ImageContentView>,
) -> bool {
    let qualities = best_first();
    &&& 0 <= i <= qualities.len()
    &&& forall|j: int| 0 <= j < i ==> too_long_at(rgb, w, h, #[trigger] qualities[j])
    &&& i < qualities.len() ==> !too_long_at(rgb, w, h, qualities[i])
    &&& match res {
        Some(img) => {
            &&& i < qualities.len()
            &&& jpeg_bytes(rgb, w, h, qualities[i]) is Some
            &&& img.mime_type == "image/jpeg"@
            &&& img.data == base64_text(jpeg_bytes(rgb, w, h, qualities[i])->0)
        },
        None => i == qualities.len() || jpeg_bytes(rgb, w, h, qualities[i]) is None,
    }
}

proof fn lemma_stops(rgb: Seq<u8>, w: u32, h: u32, i: int)
    requires
        0 <= i <= 5,
        forall|j: int|
            0 <= j < i ==> too_long_at(rgb, w, h, #[trigger] best_first()[j]),
    ensures
        exists|k: int|
            #[trigger] stops_at(
                rgb,
                w,
                h,
                k,
                compressed_from(rgb, w, h, i),
            ),
    decreases 5 - i,
{
    let qualities = best_first();
    let res = compressed_from(rgb, w, h, i);
    if i < 5 {
        assert(qualities[i] == jpeg_quality_at(i));
        if too_long_at(rgb, w, h, qualities[i]) {
            assert forall|j: int| 0 <= j < i + 1 implies too_long_at(
                rgb,
                w,
                h,
                #[trigger] qualities[j],
            ) by {
                if j < i {
                    assert(too_long_at(rgb, w, h, qualities[j]));
                }
            }
            lemma_stops(rgb, w, h, i + 1);
            assert(res == compressed_from(rgb, w, h, i + 1));
        } else {
            assert(stops_at(rgb, w, h, i, res));
        }
    } else {
        assert(stops_at(rgb, w, h, 5, res));
    }
}

/// Pixels are compressed at the best of the qualities 85, 80, 70, 55 and 40 whose text
/// is no longer than 5 MiB; there is no image where the encoder refuses before that, or
/// where every text is too long.
pub proof fn law_the_best_quality_that_fits_is_used(rgb: Seq<u8>, w: u32, h: u32)
    ensures
        exists|k: int|
            #[trigger] stops_at(
                rgb,
                w,
                h,
                k,
                compressed(rgb, w, h),
            ),
{
    lemma_stops(rgb, w, h, 0);
}

/// Whether an outcome comes of an image's own pixels, all of them.
pub open spec fn comes_of(img: image::DynamicImage, res: Option<ImageContentView>) -> bool {
    let (w, h) = image_size(img);
    if image_rgb(img).len() == 3 * (w as int * h as int) {
        exists|k: int| #[trigger] stops_at(image_rgb(img), w, h, k, res)
    } else {
        res is None
    }
}

/// An image whose text is at most 5 MiB long is kept as it is. Any other becomes what
/// its own pixels are compressed to, once it has been read from its bytes and, where
/// one of its sides is longer than 2000 pixels, scaled to fit. It is lost where its text
/// or its bytes cannot be read, and not for any other reason before that.
pub proof fn law_what_an_image_becomes(img: ImageContentView, res: Option<ImageContentView>)
    requires
        normalized(img, res),
    ensures
        encode_utf8(img.data).len() <= 5242880 ==> res == Some(img),
        encode_utf8(img.data).len() > 5242880 ==> match base64_bytes(img.data) {
            None => res is None,
            Some(bytes) => {
                ||| can_load(bytes, None) && res is None
                ||| exists|decoded: image::DynamicImage, used: image::DynamicImage|
                    {
                        &&& can_load(bytes, Some(decoded))
                        &&& #[trigger] used_for(decoded, used)
                        &&& comes_of(used, res)
                    }
            },
        },
{
    if encode_utf8(img.data).len() > 5242880 && base64_bytes(img.data) is Some && !(res is None
        && can_load(base64_bytes(img.data)->0, None)) {
        let bytes = base64_bytes(img.data)->0;
        let decoded = choose|decoded: image::DynamicImage|
            can_load(bytes, Some(decoded)) && #[trigger] shrunk(decoded, res);
        let (w, h) = image_size(decoded);
        law_scaling_meets_the_limit(w, h);
        let used = if scaled_size(w, h) == (w, h) {
            decoded
        } else {
            choose|scaled: image::DynamicImage|
                {
                    &&& can_scale(decoded, scaled_size(w, h).0, scaled_size(w, h).1, scaled)
                    &&& image_size(scaled).0 <= scaled_size(w, h).0
                    &&& image_size(scaled).1 <= scaled_size(w, h).1
                    &&& #[trigger] outcome_of(scaled, res)
                }
        };
        let (uw, uh) = image_size(used);
        law_the_best_quality_that_fits_is_used(image_rgb(used), uw, uh);
        assert(outcome_of(used, res));
        assert(used_for(decoded, used));
        assert(comes_of(used, res));
    }
}

/// Whether the pixels of an image are what is used of a decoded one: the decoded image
/// itself where no side is longer than 2000 pixels, else that image scaled.
pub open spec fn used_for(decoded: image::DynamicImage, used: image::DynamicImage) -> bool {
    let (w, h) = image_size(decoded);
    &&& w <= 2000 && h <= 2000 ==> used == decoded
    &&& w > 2000 || h > 2000 ==> can_scale(
        decoded,
        scaled_size(w, h).0,
        scaled_size(w, h).1,
        used,
    )
    &&& image_size(used).0 <= 2000
    &&& image_size(used).1 <= 2000
}

/// The images that are kept are the outcomes that are images, in their order, and those
/// that count as failed are the outcomes that are none.
pub proof fn law_kept_and_failed_images(outcomes: Seq<Option<ImageContentView>>)
    ensures
        kept_images(outcomes) == outcomes.filter(
            |o: Option<ImageContentView>| o is Some,
        ).map_values(|o: Option<ImageContentView>| o->0),
        failed_images(outcomes) == outcomes.filter(|o: Option<ImageContentView>| o is None).len(),
    decreases outcomes.len(),
{
    let some = |o: Option<ImageContentView>| o is Some;
    let none = |o: Option<ImageContentView>| o is None;
    let value = |o: Option<ImageContentView>| o->0;
    reveal(Seq::filter);
    if outcomes.len() > 0 {
        let front = outcomes.drop_last();
        law_kept_and_failed_images(front);
        assert(kept_images(outcomes) =~= outcomes.filter(some).map_values(value));
    } else {
        assert(kept_images(outcomes) =~= outcomes.filter(some).map_values(value));
    }
}

} // verus!
