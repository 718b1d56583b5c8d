//! The image codecs and the resampler, as far as the cover art pipeline uses
//! them. Every function with a body of its own here hands its work to the
//! `image` and `fast_image_resize` crates; Verus takes what is said of them
//! on trust. The three types keep what is known of an image beside the image
//! itself, and only the functions of this file make them.

use crate::artwork::{
    always_encodes, encoder_takes, known_layout, ArtFormat, PixelLayout, Scaling, MAX_SIDE,
};
use vstd::prelude::*;

verus! {

/// A decoded image of the `image` crate. Nothing of its content is visible
/// here.
#[verifier::external_type_specification]
#[verifier::external_body]
pub struct ExDynamicImage(image::DynamicImage);

/// The error of the `image` crate's decoders and encoders.
#[verifier::external_type_specification]
#[verifier::external_body]
pub struct ExImageError(image::ImageError);

/// The error of the `fast_image_resize` crate's resampler.
#[verifier::external_type_specification]
#[verifier::external_body]
pub struct ExResizeError(fast_image_resize::ResizeError);

/// A decoded piece of art, with its size and pixel layout. Made by `decode`
/// alone, which reads all three off the image.
pub struct Source {
    picture: image::DynamicImage,
    width: u32,
    height: u32,
    layout: PixelLayout,
}

/// A square image that art was resampled into, with its side, its pixel
/// layout and the way the art was fitted. Made by `resample` alone.
pub struct Canvas {
    picture: image::DynamicImage,
    side: u32,
    layout: PixelLayout,
    scaling: Scaling,
}

/// A piece of art in the form in which it is uploaded: the encoded bytes,
/// with the format they are in, the side of the square they hold, and the way
/// the art was fitted into it. Made by `encode_jpeg` and `encode_png` alone.
pub struct RenderedArt {
    bytes: Vec<u8>,
    format: ArtFormat,
    side: u32,
    scaling: Scaling,
}

impl Source {
    /// The width of the art in pixels.
    pub closed spec fn width(&self) -> u32 {
        self.width
    }

    /// The height of the art in pixels.
    pub closed spec fn height(&self) -> u32 {
        self.height
    }

    /// The pixel layout of the art.
    pub closed spec fn layout(&self) -> PixelLayout {
        self.layout
    }

    /// Width and height of the art in pixels.
    pub fn size(&self) -> (r: (u32, u32))
        ensures
            r == (self.width(), self.height()),
    {
        (self.width, self.height)
    }
}

impl Canvas {
    /// The side of the square in pixels.
    pub closed spec fn side(&self) -> u32 {
        self.side
    }

    /// The pixel layout of the square.
    pub closed spec fn layout(&self) -> PixelLayout {
        self.layout
    }

    /// The way the art was fitted into the square.
    pub closed spec fn scaling(&self) -> Scaling {
        self.scaling
    }
}

impl RenderedArt {
    /// The encoded bytes.
    pub closed spec fn data(&self) -> Seq<u8> {
        self.bytes@
    }

    /// The format that the bytes are in.
    pub closed spec fn encoding(&self) -> ArtFormat {
        self.format
    }

    /// The side, in pixels, of the square that the bytes hold.
    pub closed spec fn side(&self) -> u32 {
        self.side
    }

    /// The way the art was fitted into the square.
    pub closed spec fn scaling(&self) -> Scaling {
        self.scaling
    }

    /// The encoded bytes.
    pub fn bytes(&self) -> (r: &Vec<u8>)
        ensures
            r@ == self.data(),
    {
        &self.bytes
    }

    /// The encoded bytes, without what is known of them.
    pub fn into_bytes(self) -> (r: Vec<u8>)
        ensures
            r@ == self.data(),
    {
        self.bytes
    }

    /// The format that the bytes are in.
    pub fn format(&self) -> (r: ArtFormat)
        ensures
            r == self.encoding(),
    {
        self.format
    }
}

/// Width, height and pixel layout of the image that `data` holds in the given
/// format, as the `image` crate's decoder for that format finds them; `None`
/// where the bytes do not decode.
pub uninterp spec fn decoded_shape(data: Seq<u8>, format: ArtFormat) -> Option<
    (u32, u32, PixelLayout),
>;

/// Width and height of the image that `data` holds in the given format;
/// `None` where the bytes do not decode.
pub open spec fn decoded_size(data: Seq<u8>, format: ArtFormat) -> Option<(u32, u32)> {
    match decoded_shape(data, format) {
        Some(shape) => Some((shape.0, shape.1)),
        None => None,
    }
}

/// Decodes `data` as an image of the given format, with
/// `image::ImageReader::new`, `set_format` and `decode`, and reads width,
/// height and pixel layout off the image, with `DynamicImage::width`,
/// `height` and `color` and `ColorType::channel_count` and
/// `bytes_per_pixel`. Whether the bytes decode, and to what, depends on the
/// bytes and the format alone; the contract gives size and layout the name
/// `decoded_shape` and says that the call fails just where there is none.
#[verifier::external_body]
pub(crate) fn decode(data: &[u8], format: ArtFormat) -> (r: Result<Source, image::ImageError>)
    ensures
        match r {
            Ok(source) => decoded_shape(data@, format) == Some(
                (source.width(), source.height(), source.layout()),
            ),
            Err(_) => decoded_shape(data@, format) is None,
        },
{
    let mut reader = image::ImageReader::new(std::io::Cursor::new(data));
    reader.set_format(
        match format {
            ArtFormat::Jpeg => image::ImageFormat::Jpeg,
            ArtFormat::Png => image::ImageFormat::Png,
        },
    );
    let picture = reader.decode()?;
    let (width, height, color) = (picture.width(), picture.height(), picture.color());
    let layout = PixelLayout { channels: color.channel_count(), bytes: color.bytes_per_pixel() };
    Ok(Source { picture, width, height, layout })
}

/// Resamples art into a new square of the given side and of the art's own
/// pixel layout, with `DynamicImage::new` and `Resizer::resize`. The settings
/// are those of `ResizeOptions::new` for `Stretch`, where the whole art is
/// scaled, and those after `fit_into_destination` with no anchor given, which
/// stands for the middle, for `CentreCrop`, where the art is first cut to a
/// square around its centre.
///
/// `DynamicImage::new` panics where the pixel buffer would not fit a vector;
/// with a side of at most `MAX_SIDE` and at most 16 bytes to a pixel the
/// buffer stays within 16 MiB. `resize` fails where it does not know the
/// pixel layout of an image, where source and target differ in layout, and
/// where the cut does not lie within the source. It knows the ten layouts
/// that decoded images come in; the target has the source's layout; and the
/// cut for a square target is a square of the source's shorter side, placed
/// half the excess from the edge. So the call succeeds for every known
/// layout. What the pixels are is left open: the resampler picks its
/// arithmetic by the machine it runs on.
#[verifier::external_body]
pub(crate) fn resample(source: &Source, side: u32, scaling: Scaling) -> (r: Result<
    Canvas,
    fast_image_resize::ResizeError,
>)
    requires
        side <= MAX_SIDE,
    ensures
        known_layout(source.layout()) ==> r is Ok,
        r matches Ok(canvas) ==> canvas.side() == side && canvas.layout() == source.layout()
            && canvas.scaling() == scaling,
{
    let mut picture = image::DynamicImage::new(side, side, source.picture.color());
    let options = match scaling {
        Scaling::Stretch => fast_image_resize::ResizeOptions::new(),
        Scaling::CentreCrop => fast_image_resize::ResizeOptions::new().fit_into_destination(None),
    };
    fast_image_resize::Resizer::new().resize(&source.picture, &mut picture, &options)?;
    Ok(Canvas { picture, side, layout: source.layout, scaling })
}

/// Encodes a canvas as JPEG with `JpegEncoder::write_image`.
///
/// That call panics where the length of the buffer differs from width times
/// height times bytes per pixel; it is given the buffer, the size and the
/// colour type of the canvas, for which they agree. It fails for every layout
/// but 8-bit grey and 8-bit RGB, and for a side of zero or beyond 65535; for
/// the two layouts and a side between them it writes into memory and cannot
/// fail. What it writes starts with a frame header of the width and height
/// given, which is what a decoder reads the size from.
#[verifier::external_body]
pub(crate) fn encode_jpeg(canvas: &Canvas) -> (r: Result<RenderedArt, image::ImageError>)
    ensures
        r is Ok ==> encoder_takes(ArtFormat::Jpeg, canvas.layout()),
        always_encodes(ArtFormat::Jpeg, canvas.layout()) && 1 <= canvas.side() <= MAX_SIDE ==> r
            is Ok,
        r matches Ok(art) ==> art.encoding() == ArtFormat::Jpeg && art.side() == canvas.side()
            && art.scaling() == canvas.scaling() && decoded_size(art.data(), ArtFormat::Jpeg)
            == Some((canvas.side(), canvas.side())),
{
    let mut bytes = Vec::new();
    image::ImageEncoder::write_image(
        image::codecs::jpeg::JpegEncoder::new(&mut bytes),
        canvas.picture.as_bytes(),
        canvas.picture.width(),
        canvas.picture.height(),
        canvas.picture.color().into(),
    )?;
    Ok(RenderedArt { bytes, format: ArtFormat::Jpeg, side: canvas.side, scaling: canvas.scaling })
}

/// Encodes a canvas as PNG with `PngEncoder::write_image`.
///
/// That call panics under the same condition as the JPEG encoder's, which is
/// met in the same way. It fails for the two layouts of 32-bit channels, and
/// for a side of zero. For the four layouts of 8-bit channels and a side of
/// at least one it writes into memory and cannot fail; for the four of 16-bit
/// channels it first asks for a buffer to turn the bytes round in, which the
/// machine may refuse. What it writes starts with a header of the width and
/// height given, which is what a decoder reads the size from.
#[verifier::external_body]
pub(crate) fn encode_png(canvas: &Canvas) -> (r: Result<RenderedArt, image::ImageError>)
    ensures
        r is Ok ==> encoder_takes(ArtFormat::Png, canvas.layout()),
        always_encodes(ArtFormat::Png, canvas.layout()) && 1 <= canvas.side() <= MAX_SIDE ==> r
            is Ok,
        r matches Ok(art) ==> art.encoding() == ArtFormat::Png && art.side() == canvas.side()
            && art.scaling() == canvas.scaling() && decoded_size(art.data(), ArtFormat::Png)
            == Some((canvas.side(), canvas.side())),
{
    let mut bytes = Vec::new();
    image::ImageEncoder::write_image(
        image::codecs::png::PngEncoder::new(&mut bytes),
        canvas.picture.as_bytes(),
        canvas.picture.width(),
        canvas.picture.height(),
        canvas.picture.color().into(),
    )?;
    Ok(RenderedArt { bytes, format: ArtFormat::Png, side: canvas.side, scaling: canvas.scaling })
}

} // verus!
