//! Skin data: encoded sprite images held with their decoded dimensions.
//!
//! Decoding itself is done by the `image` crate; this module keeps the
//! encoded bytes together with the decoded width and height, and can extract
//! the alpha plane that hit-testing needs.

use vstd::prelude::*;
use crate::mask::AlphaMask;

verus! {

/// What decoding an encoded image yields: the pixel dimensions and the alpha
/// byte of every RGBA pixel in row-major order — or nothing when the bytes
/// are not a decodable image.  The result depends on the bytes alone.
pub uninterp spec fn decoded_image(bytes: Seq<u8>) -> Option<(u32, u32, Seq<u8>)>;

/// Why a skin could not be produced.
#[derive(Debug)]
pub enum SkinError {
    /// The bytes could not be decoded as an image.
    ImageLoadError(String),
    /// Reading the underlying file failed (reported by the caller that read it).
    IoError(String),
    /// A named asset was missing.
    NotFound(String),
}

impl SkinError {
    /// A human-readable description of the failure.
    pub fn message(&self) -> &String {
        match self {
            SkinError::ImageLoadError(m) => m,
            SkinError::IoError(m) => m,
            SkinError::NotFound(m) => m,
        }
    }
}

/// Relies on `image::load_from_memory`, `GenericImageView::dimensions` and
/// `DynamicImage::to_rgba8`: decodes the bytes, reports the image's pixel
/// dimensions, and hands back the alpha byte of each RGBA pixel in row-major
/// order, one byte per pixel.
#[verifier::external_body]
fn decode_rgba_alpha(bytes: &[u8]) -> (r: Result<(u32, u32, Vec<u8>), String>)
    ensures
        match r {
            Ok(d) => decoded_image(bytes@) == Some((d.0, d.1, d.2@)) && d.2@.len() == (
            d.0 as nat) * (d.1 as nat),
            Err(_) => decoded_image(bytes@) is None,
        },
{
    match image::load_from_memory(bytes) {
        Ok(img) => {
            let (w, h) = image::GenericImageView::dimensions(&img);
            let rgba = img.to_rgba8();
            let alpha: Vec<u8> = rgba.pixels().map(|p| p.0[3]).collect();
            Ok((w, h, alpha))
        },
        Err(e) => Err(e.to_string()),
    }
}

/// An encoded sprite image and its decoded dimensions, loadable before any
/// GPU resource exists.
#[derive(Debug, Clone)]
pub struct SkinData {
    bytes: Vec<u8>,
    width: u32,
    height: u32,
}

impl SkinData {
    /// The encoded bytes held.
    pub closed spec fn spec_bytes(&self) -> Seq<u8> {
        self.bytes@
    }

    /// Decoded width in pixels.
    pub closed spec fn spec_width(&self) -> u32 {
        self.width
    }

    /// Decoded height in pixels.
    pub closed spec fn spec_height(&self) -> u32 {
        self.height
    }

    /// The held dimensions are the ones decoding the held bytes yields.
    pub open spec fn wf(&self) -> bool {
        match decoded_image(self.spec_bytes()) {
            Some(d) => self.spec_width() == d.0 && self.spec_height() == d.1,
            None => false,
        }
    }

    /// Load skin data from encoded bytes; fails exactly when the bytes do
    /// not decode as an image.
    pub fn from_bytes(bytes: &[u8]) -> (r: Result<SkinData, SkinError>)
        ensures
            match r {
                Ok(s) => s.wf() && s.spec_bytes() == bytes@ && decoded_image(bytes@) is Some,
                Err(e) => decoded_image(bytes@) is None && e is ImageLoadError,
            },
    {
        match decode_rgba_alpha(bytes) {
            Ok(d) => {
                let held: Vec<u8> = vstd::slice::slice_to_vec(bytes);
                Ok(SkinData { bytes: held, width: d.0, height: d.1 })
            },
            Err(m) => Err(SkinError::ImageLoadError(m)),
        }
    }

    /// The raw encoded bytes.
    pub fn bytes(&self) -> (r: &[u8])
        ensures
            r@ == self.spec_bytes(),
    {
        self.bytes.as_slice()
    }

    /// The decoded width in pixels.
    pub fn width(&self) -> (r: u32)
        ensures
            r == self.spec_width(),
    {
        self.width
    }

    /// The decoded height in pixels.
    pub fn height(&self) -> (r: u32)
        ensures
            r == self.spec_height(),
    {
        self.height
    }

    /// The decoded dimensions as `(width, height)`.
    pub fn dimensions(&self) -> (r: (u32, u32))
        ensures
            r.0 == self.spec_width(),
            r.1 == self.spec_height(),
    {
        (self.width, self.height)
    }

    /// The alpha plane of the held image, for hit-testing; fails exactly
    /// when the held bytes do not decode.
    pub fn alpha_mask(&self) -> (r: Result<AlphaMask, SkinError>)
        ensures
            match r {
                Ok(m) => m.wf() && (decoded_image(self.spec_bytes()) matches Some(d) && m.spec_alpha()
                    == d.2 && m.spec_width() == d.0 && m.spec_height() == d.1),
                Err(_) => decoded_image(self.spec_bytes()) is None,
            },
    {
        match decode_rgba_alpha(self.bytes.as_slice()) {
            Ok(d) => {
                match AlphaMask::new(d.2, d.0, d.1) {
                    Some(m) => Ok(m),
                    None => Err(SkinError::ImageLoadError(String::new())),
                }
            },
            Err(m) => Err(SkinError::ImageLoadError(m)),
        }
    }
}

/// What a persona package declares about itself: names, an optional still
/// image shown while the full animation loads, and the loading caption.
#[derive(Debug, Clone)]
pub struct PersonaMeta {
    /// The persona's display name.
    pub name: String,
    /// The persona's short name.
    pub nick: String,
    /// A still image shown until the animation frames are ready.
    pub still_image: Option<SkinData>,
    /// The caption shown while loading.
    pub loading_text: String,
}

/// Load skin data from encoded bytes.
pub fn skin_bytes(bytes: &[u8]) -> (r: Result<SkinData, SkinError>)
    ensures
        match r {
            Ok(s) => s.wf() && s.spec_bytes() == bytes@ && decoded_image(bytes@) is Some,
            Err(e) => decoded_image(bytes@) is None && e is ImageLoadError,
        },
{
    SkinData::from_bytes(bytes)
}

} // verus!
