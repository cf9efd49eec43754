//! Image normalisation: decode, bring to the model's resolution, and lay the
//! RGB values out as a channel-last tensor.

use vstd::arithmetic::div_mod::lemma_fundamental_div_mod_converse;
use vstd::prelude::*;

use crate::error::{Error, LoadIssue};
use crate::tensor::{channel_last_of, lemma_channel_first_position, Layout, Tensor};

verus! {

/// Width of the images the model was trained on.
pub const IMAGE_WIDTH: u32 = 224;

/// Height of the images the model was trained on.
pub const IMAGE_HEIGHT: u32 = 224;

/// A decoded raster: `width * height` pixels, row by row, four bytes
/// (red, green, blue, alpha) each.
#[derive(Debug)]
pub struct RasterImage {
    pub width: u32,
    pub height: u32,
    pub pixels: Vec<u8>,
}

impl RasterImage {
    pub open spec fn wf(&self) -> bool {
        self.pixels@.len() == 4 * self.width * self.height
    }
}

/// What `image::load_from_memory` followed by `to_rgba8` makes of the bytes:
/// width, height and RGBA buffer, or nothing when the bytes do not decode.
pub uninterp spec fn decoded_rgba(bytes: Seq<u8>) -> Option<(u32, u32, Seq<u8>)>;

/// What `image::imageops::resize` with the nearest-neighbour filter makes of
/// an RGBA buffer of the given size at the new size.
pub uninterp spec fn nearest_resized(width: u32, height: u32, pixels: Seq<u8>, new_width: u32, new_height: u32) -> Seq<u8>;

/// Relies on `image::load_from_memory` (format guessed from the bytes) and
/// `DynamicImage::to_rgba8`, whose buffer holds exactly four bytes a pixel.
#[verifier::external_body]
fn decode_rgba(bytes: &[u8]) -> (r: Result<RasterImage, image::ImageError>)
    ensures
        match r {
            Ok(img) => img.wf() && decoded_rgba(bytes@) == Some((img.width, img.height, img.pixels@)),
            Err(_) => decoded_rgba(bytes@) is None,
        },
{
    match image::load_from_memory(bytes) {
        Ok(img) => {
            let rgba = img.to_rgba8();
            Ok(RasterImage { width: rgba.width(), height: rgba.height(), pixels: rgba.into_raw() })
        },
        Err(e) => Err(e),
    }
}

/// Pixel `p` of the RGBA buffer `out` repeats, channel for channel, one of
/// the first `n` pixels of `src`.
pub open spec fn copies_a_pixel(out: Seq<u8>, p: int, src: Seq<u8>, n: int) -> bool {
    exists|q: int|
        0 <= q < n && #[trigger] src[4 * q] == out[4 * p] && src[4 * q + 1] == out[4 * p + 1]
            && src[4 * q + 2] == out[4 * p + 2] && src[4 * q + 3] == out[4 * p + 3]
}

/// Relies on `image::imageops::resize` with `FilterType::Nearest`, whose
/// result is a buffer of exactly `width * height` RGBA pixels; it panics
/// where that length overflows `usize`. The nearest filter is a box kernel
/// of support 0, so every sample takes one source pixel with weight 1: each
/// pixel of a non-empty source's result is a copy of one source pixel.
#[verifier::external_body]
fn resize_nearest(img: &RasterImage, width: u32, height: u32) -> (r: RasterImage)
    requires
        img.wf(),
        4 * width * height <= usize::MAX,
    ensures
        r.width == width,
        r.height == height,
        r.wf(),
        r.pixels@ == nearest_resized(img.width, img.height, img.pixels@, width, height),
        img.width > 0 && img.height > 0 ==> forall|p: int|
            0 <= p < width * height ==> #[trigger] copies_a_pixel(r.pixels@, p, img.pixels@, img.width * img.height),
{
    let src = image::RgbaImage::from_raw(img.width, img.height, img.pixels.clone()).unwrap();
    let out = image::imageops::resize(&src, width, height, image::imageops::FilterType::Nearest);
    RasterImage { width, height, pixels: out.into_raw() }
}

/// Decodes a PNG, JPEG or WebP image into RGBA; `Decode`, with the codec's
/// diagnostic, when the bytes are no such image.
pub fn decode(bytes: &[u8]) -> (r: Result<RasterImage, Error>)
    ensures
        match r {
            Ok(img) => img.wf() && decoded_rgba(bytes@) == Some((img.width, img.height, img.pixels@)),
            Err(e) => e is Decode && decoded_rgba(bytes@) is None,
        },
{
    match decode_rgba(bytes) {
        Ok(img) => Ok(img),
        Err(e) => Err(Error::Decode(e)),
    }
}

/// The pixels an image of the given size has once brought to the model's
/// resolution: kept as they are at that resolution, resampled otherwise.
pub open spec fn fitted_pixels(width: u32, height: u32, pixels: Seq<u8>) -> Seq<u8> {
    if width == IMAGE_WIDTH && height == IMAGE_HEIGHT {
        pixels
    } else {
        nearest_resized(width, height, pixels, IMAGE_WIDTH, IMAGE_HEIGHT)
    }
}

/// Brings an image to the model's resolution. One already at that
/// resolution is returned untouched, without resampling; any other is
/// resampled with the nearest-neighbour filter.
pub fn resize(img: RasterImage) -> (r: RasterImage)
    requires
        img.wf(),
    ensures
        r.width == IMAGE_WIDTH,
        r.height == IMAGE_HEIGHT,
        r.wf(),
        r.pixels@ == fitted_pixels(img.width, img.height, img.pixels@),
        img.width > 0 && img.height > 0 ==> forall|p: int|
            0 <= p < IMAGE_WIDTH * IMAGE_HEIGHT ==> #[trigger] copies_a_pixel(
                r.pixels@,
                p,
                img.pixels@,
                img.width * img.height,
            ),
        img.width == IMAGE_WIDTH && img.height == IMAGE_HEIGHT ==> r.pixels@ == img.pixels@,
{
    if img.width == IMAGE_WIDTH && img.height == IMAGE_HEIGHT {
        assert forall|p: int| 0 <= p < IMAGE_WIDTH * IMAGE_HEIGHT implies #[trigger] copies_a_pixel(
            img.pixels@,
            p,
            img.pixels@,
            img.width * img.height,
        ) by {
            assert(img.width * img.height == IMAGE_WIDTH * IMAGE_HEIGHT);
            let q = p;
            assert(0 <= q < img.width * img.height && img.pixels@[4 * q] == img.pixels@[4 * p]
                && img.pixels@[4 * q + 1] == img.pixels@[4 * p + 1] && img.pixels@[4 * q + 2]
                == img.pixels@[4 * p + 2] && img.pixels@[4 * q + 3] == img.pixels@[4 * p + 3]);
        }
        img
    } else {
        resize_nearest(&img, IMAGE_WIDTH, IMAGE_HEIGHT)
    }
}

/// The red, green and blue planes of an RGBA buffer of `h` rows of `w`
/// pixels, one after the other, each row by row; alpha is dropped.
pub open spec fn planar_rgb(w: nat, h: nat, px: Seq<u8>) -> Seq<u8> {
    Seq::new(
        3 * h * w,
        |k: int| px[(((k / w as int) % h as int) * w + k % w as int) * 4 + (k / w as int) / h as int],
    )
}

/// Lays an image's red, green and blue values out as a channel-first
/// tensor `[1, 3, height, width]`, unscaled.
pub fn rgb_tensor(img: &RasterImage) -> (t: Tensor<u8>)
    requires
        img.wf(),
    ensures
        t.wf(),
        t.order() == Layout::ChannelFirst,
        t.dims() == seq![1usize, 3, img.height as usize, img.width as usize],
        t.values() == planar_rgb(img.width as nat, img.height as nat, img.pixels@),
{
    let w = img.width as usize;
    let h = img.height as usize;
    let len = img.pixels.len();
    proof {
        assert(len == (w * h) * 4 + 0) by (nonlinear_arith)
            requires
                len == 4 * w * h,
        ;
        lemma_fundamental_div_mod_converse(len as int, 4, w * h, 0);
        assert(3 * (w * h) == 3 * h * w) by (nonlinear_arith);
        assert(3 * (w * h) <= len) by (nonlinear_arith)
            requires
                len == 4 * w * h,
        ;
    }
    let n: usize = (len / 4) * 3;
    let ghost px = img.pixels@;
    let mut out: Vec<u8> = Vec::with_capacity(n);
    let mut k: usize = 0;
    while k < n
        invariant
            n == 3 * h * w,
            px == img.pixels@,
            px.len() == 4 * w * h,
            len == px.len(),
            0 <= k <= n,
            out@.len() == k,
            forall|i: int| 0 <= i < k ==> out@[i] == #[trigger] planar_rgb(w as nat, h as nat, px)[i],
        decreases n - k,
    {
        proof {
            assert(h > 0 && w > 0) by (nonlinear_arith)
                requires
                    k < 3 * h * w,
            ;
            assert(3 * h * w == (3 * h) * w);
            lemma_channel_first_position(3, h as int, w as int, k as int);
        }
        let x = k % w;
        let q = k / w;
        let y = q % h;
        let c = q / h;
        proof {
            assert((y * w + x) * 4 + c < 4 * w * h) by (nonlinear_arith)
                requires
                    y < h,
                    x < w,
                    c < 3,
            ;
            assert(y * w <= y * w + x <= (y * w + x) * 4) by (nonlinear_arith)
                requires
                    x >= 0,
                    y >= 0,
                    w >= 0,
            ;
        }
        out.push(img.pixels[(y * w + x) * 4 + c]);
        k = k + 1;
    }
    assert(out@ =~= planar_rgb(w as nat, h as nat, px));
    proof {
        assert(out@.len() == 3 * h * w);
        assert(3 * h * w == 1 * 3 * h * w) by (nonlinear_arith);
    }
    Tensor::new(vec![1usize, 3, h, w], Layout::ChannelFirst, out)
}

/// Checks at load time that a model declares the input this module
/// produces, `[1, IMAGE_HEIGHT, IMAGE_WIDTH, 3]`; fails with
/// `Load(InputShape)` otherwise.
pub fn check_input_shape(declared: &Vec<usize>) -> (r: Result<(), Error>)
    ensures
        r is Ok <==> declared@ == seq![1usize, IMAGE_HEIGHT as usize, IMAGE_WIDTH as usize, 3],
        r matches Err(e) ==> e matches Error::Load(LoadIssue::InputShape),
{
    if declared.len() == 4 && declared[0] == 1 && declared[1] == IMAGE_HEIGHT as usize
        && declared[2] == IMAGE_WIDTH as usize && declared[3] == 3 {
        assert(declared@ =~= seq![1usize, IMAGE_HEIGHT as usize, IMAGE_WIDTH as usize, 3]);
        Ok(())
    } else {
        Err(Error::Load(LoadIssue::InputShape))
    }
}

/// What the model is fed for an image whose decoded form is `(w, h, px)`:
/// its pixels at the model's resolution, as red, green and blue planes,
/// permuted to channel-last order.
pub open spec fn model_input(w: u32, h: u32, px: Seq<u8>) -> Seq<u8> {
    channel_last_of(
        3,
        IMAGE_HEIGHT as nat,
        IMAGE_WIDTH as nat,
        planar_rgb(IMAGE_WIDTH as nat, IMAGE_HEIGHT as nat, fitted_pixels(w, h, px)),
    )
}

/// An image already at the model's resolution reaches the model without
/// resampling: its input is the image's own red, green and blue values.
pub proof fn lemma_exact_size_skips_resampling(px: Seq<u8>)
    ensures
        model_input(IMAGE_WIDTH, IMAGE_HEIGHT, px) == channel_last_of(
            3,
            IMAGE_HEIGHT as nat,
            IMAGE_WIDTH as nat,
            planar_rgb(IMAGE_WIDTH as nat, IMAGE_HEIGHT as nat, px),
        ),
{
}

/// Whatever the size of the decoded image, the model receives exactly one
/// value per channel for each pixel of its fixed resolution.
pub proof fn lemma_model_input_size(w: u32, h: u32, px: Seq<u8>)
    ensures
        model_input(w, h, px).len() == 3 * IMAGE_HEIGHT * IMAGE_WIDTH,
{
}

/// Turns an encoded image into the model's input tensor
/// `[1, IMAGE_HEIGHT, IMAGE_WIDTH, 3]` of raw 0 to 255 channel values.
/// Fails with `Decode` exactly when the bytes do not decode.
pub fn normalize_image(bytes: &[u8]) -> (r: Result<Tensor<u8>, Error>)
    ensures
        match r {
            Ok(t) => match decoded_rgba(bytes@) {
                Some((w, h, px)) => {
                    &&& t.wf()
                    &&& t.order() == Layout::ChannelLast
                    &&& t.dims() == seq![1usize, IMAGE_HEIGHT as usize, IMAGE_WIDTH as usize, 3]
                    &&& t.values() == model_input(w, h, px)
                },
                None => false,
            },
            Err(e) => e is Decode && decoded_rgba(bytes@) is None,
        },
{
    let img = decode(bytes)?;
    let fitted = resize(img);
    let planes = rgb_tensor(&fitted);
    match planes.to_channel_last() {
        Ok(t) => Ok(t),
        Err(e) => Err(e),
    }
}

} // verus!
