//! stb_image bindings: the computing half.
//!
//! The foreign decode calls live outside the library. This module marshals
//! the path handed to them, translates their raw results, and owns the
//! decoded image: a pixel buffer whose size always matches the image's
//! dimensions and channel count.

use vstd::prelude::*;
use vstd::string::StringSliceAdditionalSpecFns;

use crate::marshal;

verus! {

/// stb_image error.
#[derive(Debug, Clone, Copy, PartialEq, Eq, Structural)]
pub enum Error {
    /// Failed to load image.
    Load,

    /// Invalid UTF-8 string.
    InvalidUtf8,

    /// Invalid C string.
    InvalidCString(marshal::InvalidText),
}

impl Error {
    /// A human-readable description of the error.
    pub fn describe(&self) -> (r: &'static str)
        ensures
            r@ == self.spec_describe(),
    {
        match self {
            Error::Load => "failed to load image",
            Error::InvalidUtf8 => "invalid UTF-8 string",
            Error::InvalidCString(_) => "invalid C string",
        }
    }

    /// The description `describe` returns.
    pub open spec fn spec_describe(&self) -> Seq<char> {
        match self {
            Error::Load => "failed to load image"@,
            Error::InvalidUtf8 => "invalid UTF-8 string"@,
            Error::InvalidCString(_) => "invalid C string"@,
        }
    }
}

/// Encodes the process-wide flip-vertically option as the flag value the
/// foreign toggle call takes.
pub fn flip_flag(flip: bool) -> (r: i32)
    ensures
        r == (if flip { 1int } else { 0int }),
{
    if flip { 1 } else { 0 }
}

/// Marshals an image path for the foreign load-from-file call. A path that
/// is not valid UTF-8 (handed in as `None`) or that contains an embedded
/// null byte is rejected before any foreign call is made.
pub fn marshal_path(path: Option<&str>) -> (r: Result<Vec<u8>, Error>)
    ensures
        match path {
            Some(p) => {
                &&& r is Err <==> marshal::has_nul(p.spec_bytes())
                &&& (r matches Ok(v) ==> v@ == p.spec_bytes().push(0u8))
                &&& (r matches Err(e) ==> e matches Error::InvalidCString(t)
                    && t.position < p.spec_bytes().len()
                    && p.spec_bytes()[t.position as int] == 0)
            },
            None => r == Err::<Vec<u8>, Error>(Error::InvalidUtf8),
        },
{
    match path {
        Some(p) => match marshal::to_c_bytes(p) {
            Ok(v) => Ok(v),
            Err(t) => Err(Error::InvalidCString(t)),
        },
        None => Err(Error::InvalidUtf8),
    }
}

/// Represents an image: an independently owned pixel buffer plus its
/// dimensions and channel count.
#[derive(Debug, Clone, PartialEq, Eq)]
pub struct Image {
    pixels: Vec<u8>,
    width: usize,
    height: usize,
    channels: usize,
}

impl Image {
    /// The pixel bytes.
    pub closed spec fn spec_pixels(&self) -> Seq<u8> {
        self.pixels@
    }

    /// The image width in pixels.
    pub closed spec fn spec_width(&self) -> usize {
        self.width
    }

    /// The image height in pixels.
    pub closed spec fn spec_height(&self) -> usize {
        self.height
    }

    /// The number of image components.
    pub closed spec fn spec_channels(&self) -> usize {
        self.channels
    }

    /// An image owns exactly `width * height * channels` pixel bytes.
    pub open spec fn wf(&self) -> bool {
        self.spec_pixels().len() == self.spec_width() * self.spec_height() * self.spec_channels()
    }

    /// Builds an image from what a successful foreign decode reported: the
    /// pixel bytes copied out of the decoder's buffer and the dimensions
    /// and channel count it filled in. The pixel buffer must hold exactly
    /// `width * height * channels` bytes; anything else is a failed load.
    pub fn from_decoded(pixels: Vec<u8>, width: usize, height: usize, channels: usize) -> (r:
        Result<Image, Error>)
        ensures
            r is Ok <==> pixels@.len() == width * height * channels,
            r matches Ok(img) ==> img.wf() && img.spec_pixels() == pixels@
                && img.spec_width() == width && img.spec_height() == height
                && img.spec_channels() == channels,
            r matches Err(e) ==> e == Error::Load,
    {
        let n = pixels.len();
        let expected: Option<usize> = if width == 0 || height == 0 || channels == 0 {
            Some(0)
        } else {
            match width.checked_mul(height) {
                Some(wh) => wh.checked_mul(channels),
                None => None,
            }
        };
        match expected {
            Some(expected) => {
                proof {
                    if width == 0 || height == 0 || channels == 0 {
                        assert(width * height * channels == 0) by (nonlinear_arith)
                            requires
                                width == 0 || height == 0 || channels == 0,
                        ;
                    }
                }
                if n == expected {
                    Ok(Image { pixels, width, height, channels })
                } else {
                    Err(Error::Load)
                }
            },
            None => {
                proof {
                    assert(width * height * channels > usize::MAX) by (nonlinear_arith)
                        requires
                            width >= 1,
                            height >= 1,
                            channels >= 1,
                            width * height > usize::MAX || (width * height <= usize::MAX
                                && (width * height) * channels > usize::MAX),
                    ;
                }
                Err(Error::Load)
            },
        }
    }

    /// Returns the pixel data of the image.
    pub fn pixels(&self) -> (r: &[u8])
        ensures
            r@ == self.spec_pixels(),
    {
        self.pixels.as_slice()
    }

    /// Returns the image width in pixels.
    pub fn width(&self) -> (r: usize)
        ensures
            r == self.spec_width(),
    {
        self.width
    }

    /// Returns the image height in pixels.
    pub fn height(&self) -> (r: usize)
        ensures
            r == self.spec_height(),
    {
        self.height
    }

    /// Returns the number of image components.
    pub fn channels(&self) -> (r: usize)
        ensures
            r == self.spec_channels(),
    {
        self.channels
    }
}

} // verus!
