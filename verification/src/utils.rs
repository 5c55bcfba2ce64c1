//! Loading the window icon and naming modifier sets.

use crate::modifiers::{control_bit, Modifiers};
use image::ImageError;
use vstd::prelude::*;
use vstd::string::StringExecFns;

verus! {

/// An image as 8-bit RGBA pixels, row by row, with its dimensions.
pub struct IconView {
    pub rgba: Seq<u8>,
    pub width: u32,
    pub height: u32,
}

impl IconView {
    /// The pixel data is four bytes for each pixel of `width` times `height`.
    pub open spec fn wf(self) -> bool {
        self.rgba.len() % 4 == 0 && self.rgba.len() / 4 == self.width * self.height
    }
}

/// Pixels and dimensions as they come out of the decoder.
pub struct DecodedImage {
    pub rgba: Vec<u8>,
    pub width: u32,
    pub height: u32,
}

impl View for DecodedImage {
    type V = IconView;

    open spec fn view(&self) -> IconView {
        IconView { rgba: self.rgba@, width: self.width, height: self.height }
    }
}

/// A window icon: RGBA pixels whose count matches the icon's dimensions.
pub struct IconImage {
    rgba: Vec<u8>,
    width: u32,
    height: u32,
}

impl View for IconImage {
    type V = IconView;

    closed spec fn view(&self) -> IconView {
        IconView { rgba: self.rgba@, width: self.width, height: self.height }
    }
}

#[verifier::external_type_specification]
#[verifier::external_body]
pub struct ExImageError(ImageError);

/// Calls `image::load_from_memory`, then `DynamicImage::into_rgba8`,
/// `ImageBuffer::dimensions` and `ImageBuffer::into_raw` on what it returns.
/// Which format the bytes are taken for, and which decoder reads them, also
/// depends on the hooks that are registered with the `image` crate in this
/// process, so nothing is promised of the outcome: neither that the same
/// bytes decode twice alike, nor how many pixels come back.
#[verifier::external_body]
fn decode_rgba8(bytes: &[u8]) -> Result<DecodedImage, ImageError> {
    let image = image::load_from_memory(bytes)?.into_rgba8();
    let (width, height) = image.dimensions();
    Ok(DecodedImage { rgba: image.into_raw(), width, height })
}

impl IconImage {
    #[verifier::type_invariant]
    spec fn pixels_match_dimensions(self) -> bool {
        self@.wf()
    }

    /// The icon made of `image`, or none where the number of bytes is not
    /// four times `width * height`.
    pub fn from_decoded(image: DecodedImage) -> (icon: Option<IconImage>)
        ensures
            icon is Some <==> image@.wf(),
            icon matches Some(i) ==> i@ == image@,
    {
        let byte_count: usize = image.rgba.len();
        if byte_count % 4 != 0 {
            return None;
        }
        let pixel_count: u64 = (byte_count / 4) as u64;
        assert(image.width * image.height <= u64::MAX) by (nonlinear_arith)
            requires
                image.width <= u32::MAX,
                image.height <= u32::MAX,
        ;
        let area: u64 = (image.width as u64) * (image.height as u64);
        if pixel_count != area {
            return None;
        }
        Some(IconImage { rgba: image.rgba, width: image.width, height: image.height })
    }

    /// The icon's width in pixels.
    pub fn width(&self) -> (width: u32)
        ensures
            width == self@.width,
    {
        self.width
    }

    /// The icon's height in pixels.
    pub fn height(&self) -> (height: u32)
        ensures
            height == self@.height,
    {
        self.height
    }

    /// The icon's pixels, four bytes each, as many as its dimensions ask for.
    pub fn rgba(&self) -> (rgba: &Vec<u8>)
        ensures
            rgba@ == self@.rgba,
            self@.wf(),
    {
        proof {
            use_type_invariant(self);
        }
        &self.rgba
    }

    /// A copy of the icon, for one more window.
    pub fn duplicate(&self) -> (copy: IconImage)
        ensures
            copy@ == self@,
    {
        proof {
            use_type_invariant(self);
        }
        let rgba = self.rgba.clone();
        assert(rgba@ =~= self.rgba@);
        IconImage { rgba, width: self.width, height: self.height }
    }
}

/// Decodes the icon held in `bytes`: the decoded image, where the bytes are
/// an image and the decoded pixels match the decoded dimensions, else none.
/// The decoder is consulted once; what it returns decides, as
/// `IconImage::from_decoded` says.
pub fn load_icon(bytes: &[u8]) -> (icon: Option<IconImage>)
    ensures
        icon matches Some(i) ==> i@.wf(),
{
    match decode_rgba8(bytes) {
        Ok(image) => IconImage::from_decoded(image),
        Err(_) => None,
    }
}

/// The text that names the modifiers of `mods` in a key binding: `Ctrl+` where
/// the control key is among them, and nothing for any other modifier.
pub open spec fn modifiers_text(mods: Modifiers) -> Seq<char> {
    if mods.spec_contains(Modifiers { bits: control_bit() }) {
        "Ctrl+"@
    } else {
        Seq::empty()
    }
}

/// The prefix that names the modifiers of a key binding.
pub fn modifiers_to_string(mods: Modifiers) -> (text: String)
    ensures
        text@ == modifiers_text(mods),
{
    let mut mods_line = String::new();
    if mods.contains(Modifiers::control()) {
        mods_line.append("Ctrl+");
    }
    assert(mods_line@ =~= modifiers_text(mods));
    mods_line
}

} // verus!
