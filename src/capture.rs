use vstd::prelude::*;
use crate::clip::{Clip, ClipView};

verus! {

/// What `image::ImageBuffer::write_to` produces as PNG for an RGBA buffer of
/// the given size; `None` where building or encoding the image fails.
pub uninterp spec fn png_of(pixels: Seq<u8>, width: u32, height: u32) -> Option<Seq<u8>>;

/// Relies on `image::ImageBuffer::from_raw`, which refuses a buffer shorter
/// than four bytes a pixel, and on `write_to` with `ImageFormat::Png`.
#[verifier::external_body]
fn raw_pixels_to_png(pixels: &[u8], width: u32, height: u32) -> (r: Option<Vec<u8>>)
    ensures
        (pixels@.len() as int) < (width as int) * (height as int) * 4 ==> r is None,
        match r {
            Some(png) => png_of(pixels@, width, height) == Some(png@),
            None => png_of(pixels@, width, height) is None,
        },
{
    let img = image::ImageBuffer::<image::Rgba<u8>, _>::from_raw(width, height, pixels)?;
    let mut png: Vec<u8> = Vec::new();
    img.write_to(&mut std::io::Cursor::new(&mut png), image::ImageFormat::Png).ok()?;
    Some(png)
}

pub const U32_MAX: usize = 0xffff_ffff;

/// Turns raw RGBA pixels read from the clipboard into an image clip holding
/// PNG bytes. There is none where a side does not fit in 32 bits, where the
/// buffer is too short for the size, or where encoding fails; otherwise there
/// is one.
pub fn clip_from_image(pixels: &[u8], width: usize, height: usize) -> (r: Option<Clip>)
    ensures
        width > U32_MAX || height > U32_MAX ==> r is None,
        (pixels@.len() as int) < (width as int) * (height as int) * 4 ==> r is None,
        width <= U32_MAX && height <= U32_MAX ==> match png_of(
            pixels@,
            width as u32,
            height as u32,
        ) {
            Some(data) => r matches Some(c) && c@ == (ClipView::Image {
                data,
                width: width as nat,
                height: height as nat,
            }),
            None => r is None,
        },
{
    if width > U32_MAX || height > U32_MAX {
        return None;
    }
    match raw_pixels_to_png(pixels, width as u32, height as u32) {
        Some(data) => Some(Clip::Image { data, width, height }),
        None => None,
    }
}

/// Text read from the clipboard, as a clip; empty text is no clip.
pub fn clip_from_text(plain: String) -> (r: Option<Clip>)
    ensures
        plain@.len() == 0 ==> r is None,
        plain@.len() > 0 ==> (r matches Some(c) && c@ == (ClipView::Text { plain: plain@ })),
{
    if plain.as_str().unicode_len() == 0 {
        None
    } else {
        Some(Clip::Text { plain })
    }
}

/// The state of a global hotkey event.
#[derive(Debug, Clone, Copy, PartialEq, Eq, Structural)]
pub enum KeyState {
    Pressed,
    Released,
}

/// A capture starts only when the registered chord is pressed.
pub fn starts_capture(is_capture_chord: bool, state: KeyState) -> (r: bool)
    ensures
        r == (is_capture_chord && state == KeyState::Pressed),
{
    is_capture_chord && state == KeyState::Pressed
}

} // verus!
