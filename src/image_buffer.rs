//! The image crate's 16-bit grayscale buffer, as the frames of this library carry it.
use vstd::prelude::*;

verus! {

/// A 16-bit grayscale image, held as the image crate's `ImageBuffer`.
///
/// What it holds is named by `gray16_samples`, `gray16_width` and
/// `gray16_height`; the functions below are the only way to it.
#[verifier::external_body]
pub struct Gray16Image {
    buffer: image::ImageBuffer<image::Luma<u16>, Vec<u16>>,
}

/// The samples that a grayscale image holds, row after row.
pub uninterp spec fn gray16_samples(img: Gray16Image) -> Seq<u16>;

/// The width of a grayscale image, in pixels.
pub uninterp spec fn gray16_width(img: Gray16Image) -> u32;

/// The height of a grayscale image, in pixels.
pub uninterp spec fn gray16_height(img: Gray16Image) -> u32;

/// Relies on `image::ImageBuffer::from_raw`: it keeps `samples` as the image's
/// data when one sample per pixel fits in it, and refuses the samples otherwise.
#[verifier::external_body]
pub(crate) fn gray16_from_raw(width: u32, height: u32, samples: Vec<u16>) -> (r: Option<
    Gray16Image,
>)
    ensures
        r is Some <==> (width as int) * (height as int) <= samples@.len(),
        r matches Some(img) ==> gray16_samples(img) == samples@ && gray16_width(img) == width
            && gray16_height(img) == height,
{
    image::ImageBuffer::from_raw(width, height, samples).map(|buffer| Gray16Image { buffer })
}

impl Gray16Image {
    /// Relies on `image::ImageBuffer::width`: the width the image was made with.
    #[verifier::external_body]
    pub(crate) fn width(&self) -> (r: u32)
        ensures
            r == gray16_width(*self),
    {
        self.buffer.width()
    }

    /// Relies on `image::ImageBuffer::height`: the height the image was made with.
    #[verifier::external_body]
    pub(crate) fn height(&self) -> (r: u32)
        ensures
            r == gray16_height(*self),
    {
        self.buffer.height()
    }

    /// Relies on `image::ImageBuffer::into_raw`: it hands back the samples the
    /// image holds.
    #[verifier::external_body]
    pub(crate) fn into_raw(self) -> (r: Vec<u16>)
        ensures
            r@ == gray16_samples(self),
    {
        self.buffer.into_raw()
    }
}

} // verus!
