//! Captured images: transport decoding and pixel layout.

use crate::errors::{ComputerUseError, ComputerUseErrorCode, ComputerUseResult};
#[allow(unused_imports)]
use crate::errors::fails_with;
use base64::Engine;
use vstd::prelude::*;

verus! {

/// The sample layout of decoded pixels.
#[derive(Debug, Clone, Copy, PartialEq, Eq, Structural)]
pub enum PixelLayout {
    Grayscale,
    GrayscaleAlpha,
    Rgb,
    Rgba,
    Indexed,
}

/// Decoded pixels, row by row, with eight bits per sample.
#[derive(Debug, Clone, PartialEq, Eq)]
pub struct DecodedPng {
    pub pixels: Vec<u8>,
    pub width: u32,
    pub height: u32,
    pub layout: PixelLayout,
}

/// The mathematical value of decoded pixels.
pub struct PixelGrid {
    pub pixels: Seq<u8>,
    pub width: u32,
    pub height: u32,
    pub layout: PixelLayout,
}

impl DecodedPng {
    pub open spec fn view(&self) -> PixelGrid {
        PixelGrid {
            pixels: self.pixels@,
            width: self.width,
            height: self.height,
            layout: self.layout,
        }
    }
}

/// What `base64`'s standard engine makes of a text: its bytes, or the text of
/// its error.
pub uninterp spec fn base64_decoded(text: Seq<char>) -> Result<Seq<u8>, Seq<char>>;

/// What the `png` decoder makes of a file, with palettes expanded and samples
/// stripped to eight bits: the pixels of its first frame, or the text of its
/// error.
pub uninterp spec fn png_decoded(data: Seq<u8>) -> Result<PixelGrid, Seq<char>>;

/// Decodes a text with `base64`'s `general_purpose::STANDARD`. The result is
/// named `base64_decoded` of the text.
#[verifier::external_body]
fn standard_base64(text: &str) -> (r: Result<Vec<u8>, String>)
    ensures
        match r {
            Ok(bytes) => base64_decoded(text@) == Ok::<Seq<u8>, Seq<char>>(bytes@),
            Err(message) => base64_decoded(text@) == Err::<Seq<u8>, Seq<char>>(message@),
        },
{
    base64::engine::general_purpose::STANDARD.decode(text).map_err(|error| error.to_string())
}

/// Reads the first frame of a PNG file with `png::Decoder`, expanding palettes
/// and stripping samples to eight bits. The result is named `png_decoded` of
/// the file. A picture that does not fit the address space is an error of the
/// decoder like any other.
#[verifier::external_body]
fn first_png_frame(data: &Vec<u8>) -> (r: Result<DecodedPng, String>)
    ensures
        match r {
            Ok(image) => png_decoded(data@) == Ok::<PixelGrid, Seq<char>>(image.view()),
            Err(message) => png_decoded(data@) == Err::<PixelGrid, Seq<char>>(message@),
        },
{
    let mut decoder = png::Decoder::new(std::io::Cursor::new(data));
    decoder.set_transformations(png::Transformations::EXPAND | png::Transformations::STRIP_16);
    let mut reader = decoder.read_info().map_err(|error| error.to_string())?;
    let mut pixels = vec![0; reader.output_buffer_size().unwrap_or(0)];
    let info = reader.next_frame(&mut pixels).map_err(|error| error.to_string())?;
    pixels.truncate(info.buffer_size());
    let layout = match info.color_type {
        png::ColorType::Grayscale => PixelLayout::Grayscale,
        png::ColorType::GrayscaleAlpha => PixelLayout::GrayscaleAlpha,
        png::ColorType::Rgb => PixelLayout::Rgb,
        png::ColorType::Rgba => PixelLayout::Rgba,
        png::ColorType::Indexed => PixelLayout::Indexed,
    };
    Ok(DecodedPng { pixels, width: info.width, height: info.height, layout })
}

/// The samples each pixel of a layout takes.
pub open spec fn samples_per_pixel(layout: PixelLayout) -> nat {
    match layout {
        PixelLayout::Grayscale => 1,
        PixelLayout::GrayscaleAlpha => 2,
        PixelLayout::Rgb => 3,
        PixelLayout::Rgba => 4,
        PixelLayout::Indexed => 1,
    }
}

/// One pixel's blue, green, red, and alpha samples, the pixel's own samples
/// starting at `at`.
pub open spec fn bgra_pixel(layout: PixelLayout, pixels: Seq<u8>, at: int) -> Seq<u8> {
    match layout {
        PixelLayout::Rgba => seq![pixels[at + 2], pixels[at + 1], pixels[at], pixels[at + 3]],
        PixelLayout::Rgb => seq![pixels[at + 2], pixels[at + 1], pixels[at], 255u8],
        PixelLayout::GrayscaleAlpha => seq![
            pixels[at],
            pixels[at],
            pixels[at],
            pixels[at + 1],
        ],
        _ => seq![pixels[at], pixels[at], pixels[at], 255u8],
    }
}

/// The first `count` pixels in blue, green, red, alpha order.
pub open spec fn bgra_pixels(layout: PixelLayout, pixels: Seq<u8>, count: nat) -> Seq<u8>
    decreases count,
{
    if count == 0 {
        Seq::empty()
    } else {
        bgra_pixels(layout, pixels, (count - 1) as nat) + bgra_pixel(
            layout,
            pixels,
            (count - 1) * samples_per_pixel(layout),
        )
    }
}

/// The whole pixels among the decoded samples.
pub open spec fn whole_pixels(grid: PixelGrid) -> nat {
    (grid.pixels.len() / samples_per_pixel(grid.layout)) as nat
}

/// A grid in blue, green, red, alpha order, or why it has none.
pub open spec fn bgra_of(grid: PixelGrid) -> Result<Seq<u8>, Seq<char>> {
    if grid.layout == PixelLayout::Indexed {
        Err("indexed PNG was not expanded by the decoder"@)
    } else if whole_pixels(grid) != grid.width * grid.height {
        Err("PNG pixel buffer has an invalid length"@)
    } else {
        Ok(bgra_pixels(grid.layout, grid.pixels, whole_pixels(grid)))
    }
}

proof fn lemma_bgra_length(layout: PixelLayout, pixels: Seq<u8>, count: nat)
    ensures
        bgra_pixels(layout, pixels, count).len() == 4 * count,
    decreases count,
{
    if count > 0 {
        lemma_bgra_length(layout, pixels, (count - 1) as nat);
    }
}

/// A capture failure with the given text.
pub fn capture_error(message: &str) -> (r: ComputerUseError)
    ensures
        crate::errors::is_plain_error(r, ComputerUseErrorCode::CaptureFailed, message@),
{
    ComputerUseError::new(ComputerUseErrorCode::CaptureFailed, message)
}

/// Brings decoded pixels into blue, green, red, alpha order.
pub fn bgra_from_pixels(image: &DecodedPng) -> (r: ComputerUseResult<(Vec<u8>, u32, u32)>)
    ensures
        match bgra_of(image.view()) {
            Err(message) => fails_with(r, ComputerUseErrorCode::CaptureFailed, message),
            Ok(bgra) => r matches Ok((data, width, height)) && data@ == bgra && width == image.width
                && height == image.height && data@.len() == 4 * (width * height),
        },
{
    let samples: usize = match image.layout {
        PixelLayout::Grayscale => 1,
        PixelLayout::GrayscaleAlpha => 2,
        PixelLayout::Rgb => 3,
        PixelLayout::Rgba => 4,
        PixelLayout::Indexed => return Err(
            capture_error("indexed PNG was not expanded by the decoder"),
        ),
    };
    let total: usize = image.pixels.len();
    let count: usize = total / samples;
    proof {
        assert(count == whole_pixels(image.view()));
        assert(0 <= image.width * image.height <= u32::MAX * u32::MAX) by (nonlinear_arith)
            requires
                0 <= image.width <= u32::MAX,
                0 <= image.height <= u32::MAX,
        ;
    }
    if count as u128 != image.width as u128 * image.height as u128 {
        return Err(capture_error("PNG pixel buffer has an invalid length"));
    }
    let mut bgra: Vec<u8> = Vec::new();
    let mut k: usize = 0;
    let mut at: usize = 0;
    let ghost layout = image.layout;
    let ghost pixels = image.pixels@;
    proof {
        assert(count * samples <= total) by (nonlinear_arith)
            requires
                count == total / samples,
                samples > 0,
        ;
    }
    while k < count
        invariant
            k <= count,
            layout == image.layout,
            pixels == image.pixels@,
            image.layout != PixelLayout::Indexed,
            samples == samples_per_pixel(image.layout),
            at == k * samples,
            total == image.pixels@.len(),
            count * samples <= total,
            bgra@ == bgra_pixels(layout, pixels, k as nat),
        decreases count - k,
    {
        proof {
            assert(at + samples <= count * samples) by (nonlinear_arith)
                requires
                    at == k * samples,
                    k + 1 <= count,
                    samples > 0,
            ;
            assert((k + 1) * samples == at + samples) by (nonlinear_arith)
                requires
                    at == k * samples,
            ;
        }
        let ghost before = bgra@;
        match image.layout {
            PixelLayout::Rgba => {
                bgra.push(image.pixels[at + 2]);
                bgra.push(image.pixels[at + 1]);
                bgra.push(image.pixels[at]);
                bgra.push(image.pixels[at + 3]);
            },
            PixelLayout::Rgb => {
                bgra.push(image.pixels[at + 2]);
                bgra.push(image.pixels[at + 1]);
                bgra.push(image.pixels[at]);
                bgra.push(255u8);
            },
            PixelLayout::GrayscaleAlpha => {
                bgra.push(image.pixels[at]);
                bgra.push(image.pixels[at]);
                bgra.push(image.pixels[at]);
                bgra.push(image.pixels[at + 1]);
            },
            _ => {
                bgra.push(image.pixels[at]);
                bgra.push(image.pixels[at]);
                bgra.push(image.pixels[at]);
                bgra.push(255u8);
            },
        }
        assert(bgra@ =~= before + bgra_pixel(layout, pixels, at as int));
        k = k + 1;
        at = at + samples;
    }
    proof {
        lemma_bgra_length(layout, pixels, count as nat);
    }
    Ok((bgra, image.width, image.height))
}

/// The pixels of a PNG file in blue, green, red, alpha order.
pub fn decode_png_to_bgra(data: &Vec<u8>) -> (r: ComputerUseResult<(Vec<u8>, u32, u32)>)
    ensures
        match png_decoded(data@) {
            Err(message) => fails_with(r, ComputerUseErrorCode::CaptureFailed, message),
            Ok(grid) => match bgra_of(grid) {
                Err(message) => fails_with(r, ComputerUseErrorCode::CaptureFailed, message),
                Ok(bgra) => r matches Ok((pixels, width, height)) && pixels@ == bgra && width
                    == grid.width && height == grid.height,
            },
        },
{
    match first_png_frame(data) {
        Ok(image) => bgra_from_pixels(&image),
        Err(message) => Err(capture_error(message.as_str())),
    }
}

/// The bytes of a transported image.
pub fn decode_image_data(text: &str) -> (r: ComputerUseResult<Vec<u8>>)
    ensures
        match base64_decoded(text@) {
            Ok(bytes) => r matches Ok(data) && data@ == bytes,
            Err(message) => fails_with(r, ComputerUseErrorCode::CaptureFailed, message),
        },
{
    match standard_base64(text) {
        Ok(data) => Ok(data),
        Err(message) => Err(capture_error(message.as_str())),
    }
}

/// Each pixel is told by four bytes: blue, green, red and how opaque it is; gray is
/// the same in all three, and what has no opacity is opaque.
pub proof fn law_pixels_are_told_in_blue_green_red(
    layout: PixelLayout,
    pixels: Seq<u8>,
    at: int,
)
    ensures
        bgra_pixel(layout, pixels, at).len() == 4,
        layout == PixelLayout::Rgba ==> bgra_pixel(layout, pixels, at)[0] == pixels[at + 2]
            && bgra_pixel(layout, pixels, at)[1] == pixels[at + 1] && bgra_pixel(
            layout,
            pixels,
            at,
        )[2] == pixels[at] && bgra_pixel(layout, pixels, at)[3] == pixels[at + 3],
        layout == PixelLayout::Rgb ==> bgra_pixel(layout, pixels, at)[0] == pixels[at + 2]
            && bgra_pixel(layout, pixels, at)[1] == pixels[at + 1] && bgra_pixel(
            layout,
            pixels,
            at,
        )[2] == pixels[at] && bgra_pixel(layout, pixels, at)[3] == 255,
        layout == PixelLayout::Grayscale || layout == PixelLayout::GrayscaleAlpha ==> bgra_pixel(
            layout,
            pixels,
            at,
        )[0] == pixels[at] && bgra_pixel(layout, pixels, at)[1] == pixels[at] && bgra_pixel(
            layout,
            pixels,
            at,
        )[2] == pixels[at],
        layout == PixelLayout::Grayscale ==> bgra_pixel(layout, pixels, at)[3] == 255,
        layout == PixelLayout::GrayscaleAlpha ==> bgra_pixel(layout, pixels, at)[3] == pixels[at
            + 1],
{
}

/// A picture's pixels stand one after the other, each from its own samples.
pub proof fn law_pictures_keep_their_pixels_in_order(
    layout: PixelLayout,
    pixels: Seq<u8>,
    count: nat,
    k: int,
)
    requires
        0 <= k < count,
    ensures
        bgra_pixels(layout, pixels, count).len() == 4 * count,
        bgra_pixels(layout, pixels, count).subrange(4 * k, 4 * k + 4) == bgra_pixel(
            layout,
            pixels,
            k * samples_per_pixel(layout),
        ),
    decreases count,
{
    lemma_bgra_length(layout, pixels, count);
    lemma_bgra_length(layout, pixels, (count - 1) as nat);
    let head = bgra_pixels(layout, pixels, (count - 1) as nat);
    let whole = bgra_pixels(layout, pixels, count);
    if k < count - 1 {
        law_pictures_keep_their_pixels_in_order(layout, pixels, (count - 1) as nat, k);
        assert(whole.subrange(4 * k, 4 * k + 4) =~= head.subrange(4 * k, 4 * k + 4));
    } else {
        assert(whole.subrange(4 * k, 4 * k + 4) =~= bgra_pixel(
            layout,
            pixels,
            k * samples_per_pixel(layout),
        ));
    }
}

/// A picture is told exactly where it holds a pixel for each place of its size and
/// is not by index.
pub proof fn law_pictures_are_of_their_size(grid: PixelGrid)
    ensures
        bgra_of(grid) is Ok <==> grid.layout != PixelLayout::Indexed && whole_pixels(grid)
            == grid.width * grid.height,
        bgra_of(grid) matches Ok(bgra) ==> bgra.len() == 4 * (grid.width * grid.height),
{
    if bgra_of(grid) is Ok {
        lemma_bgra_length(grid.layout, grid.pixels, whole_pixels(grid));
    }
}

} // verus!
