//! Cover artwork: decoding, padding onto a square canvas, and PNG encoding.

use vstd::prelude::*;
use crate::error::SteamError;
use crate::game_name::{is_success, is_success_spec};

verus! {

/// The width and the height of the canvas that padded artwork is centred on.
pub const CANVAS_SIZE: u32 = 900;

/// How an image stores its pixels.
pub enum ColorLayout {
    L8,
    La8,
    Rgb8,
    Rgba8,
    L16,
    La16,
    Rgb16,
    Rgba16,
    Rgb32F,
    Rgba32F,
}

/// An image as the contracts see it: `rows[y][x]` holds the bytes of the
/// pixel at column `x` of row `y`, as the image's buffer stores them, and
/// `rgba[y][x]` the 8-bit RGBA value that `image` reads from that pixel.
pub struct ImageView {
    pub layout: ColorLayout,
    pub width: nat,
    pub height: nat,
    pub rows: Seq<Seq<Seq<u8>>>,
    pub rgba: Seq<Seq<Seq<u8>>>,
}

#[verifier::external_type_specification]
#[verifier::external_body]
pub struct ExDynamicImage(image::DynamicImage);

/// What a `DynamicImage` holds.
pub uninterp spec fn image_view(img: image::DynamicImage) -> ImageView;

/// The image that `image::load_from_memory` decodes from some bytes, if any.
pub uninterp spec fn decoded_image(bytes: Seq<u8>) -> Option<ImageView>;

/// The PNG file that `image` encodes an image into, if it can encode it.
pub uninterp spec fn png_encoding(v: ImageView) -> Option<Seq<u8>>;

/// The result of `image`'s alpha blending of a pixel whose alpha is neither
/// zero nor full over another pixel.
pub uninterp spec fn blend_translucent(bg: Seq<u8>, fg: Seq<u8>) -> Seq<u8>;

/// An RGBA pixel `fg` blended over `bg`: a transparent `fg` leaves `bg`, an
/// opaque one replaces it.
pub open spec fn blend_over(bg: Seq<u8>, fg: Seq<u8>) -> Seq<u8> {
    if fg[3] == 0 {
        bg
    } else if fg[3] == 255 {
        fg
    } else {
        blend_translucent(bg, fg)
    }
}

/// The transparent pixel.
pub open spec fn clear_pixel() -> Seq<u8> {
    seq![0u8, 0u8, 0u8, 0u8]
}

/// A fully transparent RGBA image.
pub open spec fn blank_view(width: nat, height: nat) -> ImageView {
    ImageView {
        layout: ColorLayout::Rgba8,
        width,
        height,
        rows: Seq::new(height, |y: int| Seq::new(width, |x: int| clear_pixel())),
        rgba: Seq::new(height, |y: int| Seq::new(width, |x: int| clear_pixel())),
    }
}

/// Whether `v` is an RGBA image, read as it is stored, whose rows match its
/// size.
pub open spec fn is_rgba_canvas(v: ImageView) -> bool {
    &&& v.layout == ColorLayout::Rgba8
    &&& v.rows == v.rgba
    &&& v.rows.len() == v.height
    &&& forall|y: int| 0 <= y < v.height ==> (#[trigger] v.rows[y]).len() == v.width
}

/// Whether the point `(x, y)` of the bottom image lies under the top image
/// placed at `(left, top_edge)`.
pub open spec fn covers(top: ImageView, left: int, top_edge: int, x: int, y: int) -> bool {
    left <= x < left + top.width && top_edge <= y < top_edge + top.height
}

/// The pixels of `top` laid over those of `bottom`, with its top-left
/// corner at `(left, top_edge)`; what falls outside `bottom` is clipped.
pub open spec fn overlaid_pixels(bottom: ImageView, top: ImageView, left: int, top_edge: int) -> Seq<Seq<Seq<u8>>> {
    Seq::new(
        bottom.height,
        |y: int|
            Seq::new(
                bottom.width,
                |x: int|
                    if covers(top, left, top_edge, x, y) {
                        blend_over(bottom.rgba[y][x], top.rgba[y - top_edge][x - left])
                    } else {
                        bottom.rgba[y][x]
                    },
            ),
    )
}

/// An RGBA canvas with `top` laid over it at `(left, top_edge)`.
pub open spec fn overlay_view(bottom: ImageView, top: ImageView, left: int, top_edge: int) -> ImageView {
    ImageView {
        layout: bottom.layout,
        width: bottom.width,
        height: bottom.height,
        rows: overlaid_pixels(bottom, top, left, top_edge),
        rgba: overlaid_pixels(bottom, top, left, top_edge),
    }
}

/// The offset that centres a length `size` within `canvas`, halving toward
/// zero; negative where `size` exceeds `canvas`.
pub open spec fn centre_offset(canvas: int, size: int) -> int {
    let d = canvas - size;
    if d >= 0 {
        d / 2
    } else {
        -((-d) / 2)
    }
}

/// An image centred on the transparent square canvas.
pub open spec fn padded_view(v: ImageView) -> ImageView {
    overlay_view(
        blank_view(CANVAS_SIZE as nat, CANVAS_SIZE as nat),
        v,
        centre_offset(CANVAS_SIZE as int, v.width as int),
        centre_offset(CANVAS_SIZE as int, v.height as int),
    )
}

/// The PNG file composed from a decoded image: the image itself, or the
/// image centred on the canvas when padding is asked for. `None` where the
/// result cannot be encoded.
pub open spec fn composed_from_view(v: ImageView, with_padding: bool) -> Option<Seq<u8>> {
    if with_padding {
        png_encoding(padded_view(v))
    } else {
        png_encoding(v)
    }
}

/// The PNG file composed from downloaded artwork; `None` where the bytes do
/// not decode or the result cannot be encoded.
pub open spec fn composed_png(raw: Seq<u8>, with_padding: bool) -> Option<Seq<u8>> {
    match decoded_image(raw) {
        None => None,
        Some(v) => composed_from_view(v, with_padding),
    }
}

/// The address of the cover artwork of a game.
pub open spec fn artwork_url_spec(game_id: Seq<char>) -> Seq<char> {
    "https://steamcdn-a.akamaihd.net/steam/apps/"@ + game_id + "/library_600x900_2x.jpg"@
}

/// Relies on `image::load_from_memory`: decoding depends on the bytes alone.
#[verifier::external_body]
fn decode_image(raw: &[u8]) -> (r: Result<image::DynamicImage, image::ImageError>)
    ensures
        match r {
            Ok(img) => decoded_image(raw@) == Some(image_view(img)),
            Err(_) => decoded_image(raw@) is None,
        },
{
    image::load_from_memory(raw)
}

/// Relies on `DynamicImage::write_to` with the PNG format, into memory: the
/// file depends on the image alone.
#[verifier::external_body]
fn encode_png(img: &image::DynamicImage) -> (r: Result<Vec<u8>, image::ImageError>)
    ensures
        match r {
            Ok(bytes) => png_encoding(image_view(*img)) == Some(bytes@),
            Err(_) => png_encoding(image_view(*img)) is None,
        },
{
    let mut buf = std::io::Cursor::new(Vec::new());
    img.write_to(&mut buf, image::ImageOutputFormat::Png).map(|_| buf.into_inner())
}

/// Relies on `image::imageops::overlay`: each pixel of the canvas under
/// `top` becomes `top`'s pixel, read as RGBA, blended over it; the rest is
/// kept, and `top` is clipped to the canvas.
#[verifier::external_body]
fn overlay_onto(canvas: &mut image::DynamicImage, top: &image::DynamicImage, left: i64, top_edge: i64)
    requires
        is_rgba_canvas(image_view(*old(canvas))),
    ensures
        image_view(*final(canvas)) == overlay_view(
            image_view(*old(canvas)),
            image_view(*top),
            left as int,
            top_edge as int,
        ),
        forall|x: int, y: int|
            0 <= x < image_view(*old(canvas)).width && 0 <= y < image_view(*old(canvas)).height
                && covers(image_view(*top), left as int, top_edge as int, x, y)
                && image_view(*top).rgba[y - top_edge][x - left][3] != 0
                && image_view(*top).rgba[y - top_edge][x - left][3] != 255
                ==> #[trigger] image_view(*final(canvas)).rgba[y][x] == blend_translucent(
                image_view(*old(canvas)).rgba[y][x],
                image_view(*top).rgba[y - top_edge][x - left],
            ),
{
    image::imageops::overlay(canvas, top, left, top_edge)
}

/// `DynamicImage::new_rgba8`: a transparent RGBA image of the given size.
/// It panics where the buffer's length overflows `usize`.
pub assume_specification[ image::DynamicImage::new_rgba8 ](w: u32, h: u32) -> (r: image::DynamicImage)
    requires
        (w as int) * (h as int) * 4 <= usize::MAX,
    ensures
        image_view(r) == blank_view(w as nat, h as nat),
;

/// `DynamicImage::width`: the width of the image.
pub assume_specification[ image::DynamicImage::width ](img: &image::DynamicImage) -> (r: u32)
    ensures
        r as nat == image_view(*img).width,
;

/// `DynamicImage::height`: the height of the image.
pub assume_specification[ image::DynamicImage::height ](img: &image::DynamicImage) -> (r: u32)
    ensures
        r as nat == image_view(*img).height,
;

/// The offset that centres a length within the canvas, halving toward zero.
pub fn centre_offset_in_canvas(size: u32) -> (r: i64)
    ensures
        r as int == centre_offset(CANVAS_SIZE as int, size as int),
{
    let d: i64 = CANVAS_SIZE as i64 - size as i64;
    if d >= 0 {
        d / 2
    } else {
        -((-d) / 2)
    }
}

/// The image centred on the transparent square canvas, clipped where it is
/// larger than the canvas.
pub fn pad_image(img: &image::DynamicImage) -> (r: image::DynamicImage)
    ensures
        image_view(r) == padded_view(image_view(*img)),
{
    let left = centre_offset_in_canvas(img.width());
    let top_edge = centre_offset_in_canvas(img.height());
    let mut canvas = image::DynamicImage::new_rgba8(CANVAS_SIZE, CANVAS_SIZE);
    overlay_onto(&mut canvas, img, left, top_edge);
    canvas
}

/// Encodes a decoded image as PNG, centred on the canvas when
/// `with_padding` holds.
pub fn encode_composed(img: &image::DynamicImage, with_padding: bool) -> (r: Result<Vec<u8>, SteamError>)
    ensures
        match composed_from_view(image_view(*img), with_padding) {
            Some(out) => r is Ok && r->Ok_0@ == out,
            None => r is Err && r->Err_0 is ImageLoadError,
        },
{
    let encoded = if with_padding {
        let canvas = pad_image(img);
        encode_png(&canvas)
    } else {
        encode_png(img)
    };
    match encoded {
        Ok(bytes) => Ok(bytes),
        Err(e) => Err(SteamError::ImageLoadError(e)),
    }
}

/// Decodes downloaded artwork and encodes it as PNG, centred on the
/// transparent square canvas when `with_padding` holds.
pub fn compose_png(raw: &[u8], with_padding: bool) -> (r: Result<Vec<u8>, SteamError>)
    ensures
        match composed_png(raw@, with_padding) {
            Some(out) => r is Ok && r->Ok_0@ == out,
            None => r is Err && r->Err_0 is ImageLoadError,
        },
{
    match decode_image(raw) {
        Ok(img) => encode_composed(&img, with_padding),
        Err(e) => Err(SteamError::ImageLoadError(e)),
    }
}

/// The address of the cover artwork of a game.
pub fn artwork_url(game_id: &str) -> (r: String)
    ensures
        r@ == artwork_url_spec(game_id@),
{
    proof {
        reveal_strlit("https://steamcdn-a.akamaihd.net/steam/apps/");
        reveal_strlit("/library_600x900_2x.jpg");
    }
    let mut r = String::from_str("https://steamcdn-a.akamaihd.net/steam/apps/");
    r.append(game_id);
    r.append("/library_600x900_2x.jpg");
    r
}

/// The PNG file to store for a reply of the artwork service: its status
/// unless that reports success, and otherwise the composed body.
pub fn artwork_from_response(status: u16, body: &[u8], with_padding: bool) -> (r: Result<Vec<u8>, SteamError>)
    ensures
        !is_success_spec(status) ==> r == Err::<Vec<u8>, SteamError>(SteamError::RequestStatusError(status)),
        is_success_spec(status) ==> match composed_png(body@, with_padding) {
            Some(out) => r is Ok && r->Ok_0@ == out,
            None => r is Err && r->Err_0 is ImageLoadError,
        },
{
    if !is_success(status) {
        return Err(SteamError::RequestStatusError(status));
    }
    compose_png(body, with_padding)
}

/// Padding keeps the canvas size and centres the source: for a source no
/// larger than the canvas, the padded image is exactly the canvas's size,
/// each source pixel lands shifted by half the spare room on each axis
/// (rounded down), blended over transparency, so that an opaque top-left
/// pixel appears unchanged there, and every other pixel stays transparent.
pub proof fn lemma_padding_centres_source(v: ImageView)
    requires
        0 < v.width <= CANVAS_SIZE,
        0 < v.height <= CANVAS_SIZE,
    ensures
        padded_view(v).width == CANVAS_SIZE,
        padded_view(v).height == CANVAS_SIZE,
        padded_view(v).rgba.len() == CANVAS_SIZE,
        forall|y: int| 0 <= y < CANVAS_SIZE ==> (#[trigger] padded_view(v).rgba[y]).len() == CANVAS_SIZE,
        ({
            let left = (CANVAS_SIZE - v.width) / 2;
            let top_edge = (CANVAS_SIZE - v.height) / 2;
            &&& padded_view(v).rgba[top_edge][left] == blend_over(clear_pixel(), v.rgba[0][0])
            &&& v.rgba[0][0][3] == 255 ==> padded_view(v).rgba[top_edge][left] == v.rgba[0][0]
            &&& forall|x: int, y: int|
                0 <= x < CANVAS_SIZE && 0 <= y < CANVAS_SIZE ==> #[trigger] padded_view(v).rgba[y][x] == if covers(v, left, top_edge, x, y) {
                    blend_over(clear_pixel(), v.rgba[y - top_edge][x - left])
                } else {
                    clear_pixel()
                }
        }),
{
    let left = (CANVAS_SIZE - v.width) / 2;
    let top_edge = (CANVAS_SIZE - v.height) / 2;
    assert(centre_offset(CANVAS_SIZE as int, v.width as int) == left);
    assert(centre_offset(CANVAS_SIZE as int, v.height as int) == top_edge);
    assert(covers(v, left, top_edge, left, top_edge));
}

/// Composing is deterministic: the same bytes with the same padding choice
/// always give the same PNG file.
pub proof fn lemma_composition_is_deterministic(
    raw: Seq<u8>,
    with_padding: bool,
    first: Seq<u8>,
    second: Seq<u8>,
)
    requires
        composed_png(raw, with_padding) == Some(first),
        composed_png(raw, with_padding) == Some(second),
    ensures
        first == second,
{
}

} // verus!
