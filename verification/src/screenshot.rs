//! Turning the PNG a device sends for a screenshot into an RGBA image the
//! panel can show, with a ceiling on its size.
use vstd::prelude::*;

use crate::domain::{BridgeError, ErrorCode};
use crate::strings::{decimal, decimal_string, push_char, push_str};

verus! {

broadcast use vstd::string::group_string_axioms;

/// Largest accepted width or height of a screenshot, in pixels.
pub const MAX_SCREENSHOT_DIMENSION: u32 = 8192;

/// Largest accepted pixel count of a screenshot.
pub const MAX_SCREENSHOT_PIXELS: u64 = 16_777_216;

/// What the `image` crate's PNG decoder makes of `png`, converted to 8-bit
/// RGBA: width, height and the row-major pixel bytes; `None` when it refuses
/// the data.
pub uninterp spec fn png_rgba(png: Seq<u8>) -> Option<(u32, u32, Seq<u8>)>;

/// The `Display` text of the decoder's error for `png`.
pub uninterp spec fn png_error_text(png: Seq<u8>) -> Seq<char>;

/// Decodes `png` with `image::ImageReader` as a PNG (default limits) and
/// converts it with `DynamicImage::to_rgba8`. An RGBA buffer holds four
/// bytes per pixel.
#[verifier::external_body]
fn decode_png_rgba(png: &[u8]) -> (decoded: Result<(u32, u32, Vec<u8>), String>)
    ensures
        match decoded {
            Ok((width, height, rgba)) => png_rgba(png@) == Some((width, height, rgba@))
                && rgba@.len() == 4 * width * height,
            Err(text) => png_rgba(png@) is None && text@ == png_error_text(png@),
        },
{
    match image::ImageReader::with_format(std::io::Cursor::new(png), image::ImageFormat::Png)
        .decode() {
        Ok(image) => {
            let rgba = image.to_rgba8();
            Ok((rgba.width(), rgba.height(), rgba.into_raw()))
        },
        Err(error) => Err(error.to_string()),
    }
}

/// A decoded screenshot: 8-bit RGBA, row-major, four bytes per pixel.
#[derive(Debug)]
pub struct ScreenshotImage {
    width: u32,
    height: u32,
    rgba: Vec<u8>,
}

/// The abstract content of a [`ScreenshotImage`].
pub struct ImageView {
    pub width: u32,
    pub height: u32,
    pub rgba: Seq<u8>,
}

impl View for ScreenshotImage {
    type V = ImageView;

    closed spec fn view(&self) -> ImageView {
        ImageView { width: self.width, height: self.height, rgba: self.rgba@ }
    }
}

impl ScreenshotImage {
    /// Whether the buffer holds exactly four bytes per pixel.
    pub closed spec fn wf(&self) -> bool {
        self.rgba@.len() == 4 * self.width * self.height
    }

    /// An image from its size and pixel bytes.
    pub fn from_rgba(width: u32, height: u32, rgba: Vec<u8>) -> (image: Self)
        requires
            rgba@.len() == 4 * width * height,
        ensures
            image.wf(),
            image@ == (ImageView { width, height, rgba: rgba@ }),
    {
        ScreenshotImage { width, height, rgba }
    }

    pub fn width(&self) -> (width: u32)
        ensures
            width == self@.width,
    {
        self.width
    }

    pub fn height(&self) -> (height: u32)
        ensures
            height == self@.height,
    {
        self.height
    }

    pub fn rgba(&self) -> (rgba: &[u8])
        ensures
            rgba@ == self@.rgba,
    {
        self.rgba.as_slice()
    }
}

/// Whether a screenshot of this size is accepted.
pub open spec fn dimensions_allowed(width: u32, height: u32) -> bool {
    &&& width <= MAX_SCREENSHOT_DIMENSION
    &&& height <= MAX_SCREENSHOT_DIMENSION
    &&& width * height <= MAX_SCREENSHOT_PIXELS
}

/// The `WIDTHxHEIGHT` text of a size.
pub open spec fn size_text(width: u32, height: u32) -> Seq<char> {
    decimal(width as nat) + seq!['x'] + decimal(height as nat)
}

/// `WIDTHxHEIGHT`.
fn size_label(width: u32, height: u32) -> (label: String)
    ensures
        label@ == size_text(width, height),
{
    let mut label = decimal_string(width as u64);
    push_char(&mut label, 'x');
    let h = decimal_string(height as u64);
    push_str(&mut label, h.as_str());
    label
}

/// What decoding a screenshot gives for a decoder outcome: the decoder's
/// refusal becomes `screenshot.decode_failed` with its text; an image wider
/// or taller than 8192 pixels, or of more than 16 777 216 pixels, becomes
/// `screenshot.dimensions_too_large` with its size; any other image is
/// accepted as decoded.
pub fn screenshot_from_decoded(decoded: Result<(u32, u32, Vec<u8>), String>) -> (result: Result<
    ScreenshotImage,
    BridgeError,
>)
    requires
        decoded matches Ok((width, height, rgba)) ==> rgba@.len() == 4 * width * height,
    ensures
        match decoded {
            Err(text) => result matches Err(error) && error.code == ErrorCode::InvalidInput
                && error.message_key@ == "screenshot.decode_failed"@ && error.detail@ == text@,
            Ok((width, height, rgba)) => if dimensions_allowed(width, height) {
                result matches Ok(image) && image.wf() && image@ == (ImageView {
                    width,
                    height,
                    rgba: rgba@,
                })
            } else {
                result matches Err(error) && error.code == ErrorCode::OutputLimit
                    && error.message_key@ == "screenshot.dimensions_too_large"@ && error.detail@
                    == size_text(width, height)
            },
        },
{
    match decoded {
        Err(text) => Err(
            BridgeError::new(ErrorCode::InvalidInput, "screenshot.decode_failed", text.as_str()),
        ),
        Ok((width, height, rgba)) => {
            assert((width as u64) * (height as u64) <= u64::MAX) by (nonlinear_arith)
                requires
                    width <= u32::MAX,
                    height <= u32::MAX,
            ;
            let pixels = (width as u64) * (height as u64);
            if width > MAX_SCREENSHOT_DIMENSION || height > MAX_SCREENSHOT_DIMENSION || pixels
                > MAX_SCREENSHOT_PIXELS {
                let label = size_label(width, height);
                Err(
                    BridgeError::new(
                        ErrorCode::OutputLimit,
                        "screenshot.dimensions_too_large",
                        label.as_str(),
                    ),
                )
            } else {
                Ok(ScreenshotImage::from_rgba(width, height, rgba))
            }
        },
    }
}

/// Decodes the PNG of a screenshot; see [`screenshot_from_decoded`] for
/// what each decoder outcome gives.
pub fn decode_screenshot(png: &[u8]) -> (result: Result<ScreenshotImage, BridgeError>)
    ensures
        match png_rgba(png@) {
            None => result matches Err(error) && error.code == ErrorCode::InvalidInput
                && error.message_key@ == "screenshot.decode_failed"@ && error.detail@
                == png_error_text(png@),
            Some((width, height, rgba)) => if dimensions_allowed(width, height) {
                result matches Ok(image) && image.wf() && image@ == (ImageView {
                    width,
                    height,
                    rgba,
                })
            } else {
                result matches Err(error) && error.code == ErrorCode::OutputLimit
                    && error.message_key@ == "screenshot.dimensions_too_large"@ && error.detail@
                    == size_text(width, height)
            },
        },
{
    screenshot_from_decoded(decode_png_rgba(png))
}

} // verus!
