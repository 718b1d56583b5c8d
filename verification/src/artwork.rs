//! Cover art on its way to the image host: the format it is in, the square
//! it is brought to, and the bytes that are uploaded.

use crate::codec::{
    decode, decoded_shape, decoded_size, encode_jpeg, encode_png, resample, RenderedArt,
};
use crate::fingerprint::key_text;
use crate::metadata::{art_for, AlbumArt, PictureView};
use crate::text::{extension, extension_of, lemma_extension_after_last_stop, text_is};
use vstd::prelude::*;

verus! {

/// The shortest side, in pixels, of art that is uploaded.
pub const MIN_SIDE: u32 = 512;

/// The longest side, in pixels, of art that is uploaded.
pub const MAX_SIDE: u32 = 1024;

/// The two formats in which cover art is taken and given.
#[derive(Clone, Copy, PartialEq, Eq, Structural, Debug)]
pub enum ArtFormat {
    Jpeg,
    Png,
}

/// How the pixels of an image are laid out: how many channels a pixel has,
/// and how many bytes it takes. Grey has one channel, grey with alpha two,
/// RGB three, RGB with alpha four; a channel takes one, two or four bytes.
#[derive(Clone, Copy, PartialEq, Eq, Structural, Debug)]
pub struct PixelLayout {
    pub channels: u8,
    pub bytes: u8,
}

/// How art is fitted into its square.
#[derive(Clone, Copy, PartialEq, Eq, Structural, Debug)]
pub enum Scaling {
    /// The whole art is scaled to the square.
    Stretch,
    /// The art is cut to a square around its centre, then scaled.
    CentreCrop,
}

/// Why a piece of art was not uploaded.
#[derive(Clone, Copy, PartialEq, Eq, Structural, Debug)]
pub enum UploadError {
    /// The art is neither JPEG nor PNG by its name, or does not decode.
    UnsupportedFormat,
    /// The decoded art could not be resampled or encoded again.
    ProcessingFailed,
    /// The image host did not take the upload.
    HostRejected,
}

impl UploadError {
    /// The failure in words.
    pub open spec fn text(self) -> Seq<char> {
        match self {
            UploadError::UnsupportedFormat => "The image is neither JPEG nor PNG, or does not decode."@,
            UploadError::ProcessingFailed => "The image could not be resized or encoded."@,
            UploadError::HostRejected => "The image host did not take the upload."@,
        }
    }

    /// The failure in words, for the log.
    pub fn message(&self) -> (r: &'static str)
        ensures
            r@ == self.text(),
    {
        match self {
            UploadError::UnsupportedFormat => "The image is neither JPEG nor PNG, or does not decode.",
            UploadError::ProcessingFailed => "The image could not be resized or encoded.",
            UploadError::HostRejected => "The image host did not take the upload.",
        }
    }
}

/// What is cut off a source image before it is scaled.
#[derive(Clone, Copy, PartialEq, Eq, Structural, Debug)]
pub enum Crop {
    /// Nothing: the source is square.
    Nothing,
    /// Equal parts left and right: the source is wider than high.
    Sides,
    /// Equal parts above and below: the source is higher than wide.
    TopAndBottom,
}

/// The square that a source image is brought to.
#[derive(Clone, Copy, PartialEq, Eq, Structural, Debug)]
pub struct ResizePlan {
    pub side: u32,
    pub crop: Crop,
}

/// The format that an extension stands for.
pub open spec fn format_of_extension(ext: Seq<char>) -> Option<ArtFormat> {
    if ext == "jpg"@ || ext == "jpeg"@ {
        Some(ArtFormat::Jpeg)
    } else if ext == "png"@ {
        Some(ArtFormat::Png)
    } else {
        None
    }
}

/// The format of a piece of art, by the extension of its key.
pub open spec fn art_format(filename: Seq<char>) -> Option<ArtFormat> {
    match extension(filename) {
        Some(e) => format_of_extension(e),
        None => None,
    }
}

/// The shorter of width and height.
pub open spec fn reference_side(width: u32, height: u32) -> u32 {
    if width <= height {
        width
    } else {
        height
    }
}

/// The side of the target square: the shorter side of the source, raised to
/// `MIN_SIDE` or lowered to `MAX_SIDE` where it lies outside them.
pub open spec fn target_side(width: u32, height: u32) -> u32 {
    let reference = reference_side(width, height);
    if reference <= MIN_SIDE {
        MIN_SIDE
    } else if reference >= MAX_SIDE {
        MAX_SIDE
    } else {
        reference
    }
}

/// What is cut off a source of this size: nothing off a square, else the
/// excess of the longer side, half at each end.
pub open spec fn crop_of(width: u32, height: u32) -> Crop {
    if width == height {
        Crop::Nothing
    } else if width > height {
        Crop::Sides
    } else {
        Crop::TopAndBottom
    }
}

/// The plan for a source of this size.
pub open spec fn plan_of(width: u32, height: u32) -> ResizePlan {
    ResizePlan { side: target_side(width, height), crop: crop_of(width, height) }
}

/// How art is fitted where this is cut off it: stretched where nothing is
/// cut, and cut around its centre otherwise.
pub open spec fn scaling_of(crop: Crop) -> Scaling {
    match crop {
        Crop::Nothing => Scaling::Stretch,
        Crop::Sides => Scaling::CentreCrop,
        Crop::TopAndBottom => Scaling::CentreCrop,
    }
}

/// Whether a layout is one of the ten that decoded images come in: one to
/// four channels of one or two bytes each, or three or four channels of four
/// bytes each.
pub open spec fn known_layout(layout: PixelLayout) -> bool {
    &&& 1 <= layout.channels <= 4
    &&& layout.bytes == layout.channels || layout.bytes == 2 * layout.channels || (layout.bytes
        == 4 * layout.channels && layout.channels >= 3)
}

/// Whether the encoder of a format takes a layout: JPEG takes grey and RGB
/// of one byte to the channel; PNG takes one to four channels of one or two
/// bytes each.
pub open spec fn encoder_takes(format: ArtFormat, layout: PixelLayout) -> bool {
    match format {
        ArtFormat::Jpeg => layout.bytes == layout.channels && (layout.channels == 1
            || layout.channels == 3),
        ArtFormat::Png => 1 <= layout.channels <= 4 && (layout.bytes == layout.channels
            || layout.bytes == 2 * layout.channels),
    }
}

/// Whether the encoder of a format is certain to encode a layout: it takes
/// the layout, and the layout has one byte to the channel. With two bytes to
/// the channel the PNG encoder needs memory that it may not get.
pub open spec fn always_encodes(format: ArtFormat, layout: PixelLayout) -> bool {
    encoder_takes(format, layout) && layout.bytes == layout.channels
}

/// What becomes of art of the given format that decodes to the given width,
/// height and layout, as far as it is settled before the codecs have done
/// their work: the art that comes out is in the format it came in, holds the
/// planned square, fitted as the plan says, and decodes to that square again;
/// it does come out where the encoder is certain to encode the layout, and
/// does not where the encoder does not take it.
pub open spec fn rendered_as(
    r: Result<RenderedArt, UploadError>,
    format: ArtFormat,
    width: u32,
    height: u32,
    layout: PixelLayout,
) -> bool {
    let plan = plan_of(width, height);
    &&& r matches Ok(art) ==> {
        &&& art.encoding() == format
        &&& art.side() == plan.side
        &&& art.scaling() == scaling_of(plan.crop)
        &&& decoded_size(art.data(), format) == Some((plan.side, plan.side))
    }
    &&& r matches Err(e) ==> e == UploadError::ProcessingFailed
    &&& known_layout(layout) && always_encodes(format, layout) ==> r is Ok
    &&& !encoder_takes(format, layout) ==> r is Err
}

/// The format of a piece of art, read off the extension of its key.
pub fn format_of(filename: &String) -> (r: Option<ArtFormat>)
    ensures
        r == art_format(filename@),
{
    match extension_of(filename.as_str()) {
        Some(e) => {
            if text_is(&e, "jpg") || text_is(&e, "jpeg") {
                Some(ArtFormat::Jpeg)
            } else if text_is(&e, "png") {
                Some(ArtFormat::Png)
            } else {
                None
            }
        },
        None => None,
    }
}

/// Decides the square that a source of the given size is brought to.
pub fn resize_plan(width: u32, height: u32) -> (r: ResizePlan)
    ensures
        r == plan_of(width, height),
        MIN_SIDE <= r.side <= MAX_SIDE,
        MIN_SIDE <= reference_side(width, height) <= MAX_SIDE ==> r.side == reference_side(
            width,
            height,
        ),
        r.crop == Crop::Nothing <==> width == height,
{
    let reference = if width <= height {
        width
    } else {
        height
    };
    let side = if reference <= MIN_SIDE {
        MIN_SIDE
    } else if reference >= MAX_SIDE {
        MAX_SIDE
    } else {
        reference
    };
    let crop = if width == height {
        Crop::Nothing
    } else if width > height {
        Crop::Sides
    } else {
        Crop::TopAndBottom
    };
    ResizePlan { side, crop }
}

/// Decides how art is fitted into its square, from what is cut off it.
pub fn scaling_for(crop: Crop) -> (r: Scaling)
    ensures
        r == scaling_of(crop),
{
    match crop {
        Crop::Nothing => Scaling::Stretch,
        Crop::Sides => Scaling::CentreCrop,
        Crop::TopAndBottom => Scaling::CentreCrop,
    }
}

/// Art that has been brought to its square is left as it is: the plan for a
/// square of a planned side asks for that side and cuts nothing.
pub proof fn lemma_plan_settles(width: u32, height: u32)
    ensures
        plan_of(target_side(width, height), target_side(width, height)) == (ResizePlan {
            side: target_side(width, height),
            crop: Crop::Nothing,
        }),
{
}

/// A key that ends in `.jpg` names JPEG, and one that ends in `.png` names
/// PNG, whatever its checksums.
pub proof fn lemma_key_names_its_format(metadata_hash: u32, image_hash: u32)
    ensures
        art_format(key_text(metadata_hash, image_hash, ".jpg"@)) == Some(ArtFormat::Jpeg),
        art_format(key_text(metadata_hash, image_hash, ".png"@)) == Some(ArtFormat::Png),
{
    reveal_strlit(".jpg");
    reveal_strlit(".png");
    reveal_strlit("jpg");
    reveal_strlit("jpeg");
    reveal_strlit("png");
    let jpg = key_text(metadata_hash, image_hash, ".jpg"@);
    let png = key_text(metadata_hash, image_hash, ".png"@);
    lemma_extension_after_last_stop(jpg, jpg.len() - 4);
    lemma_extension_after_last_stop(png, png.len() - 4);
    assert(jpg.skip(jpg.len() - 3) =~= "jpg"@);
    assert(png.skip(png.len() - 3) =~= "png"@);
    assert("jpg"@ != "png"@) by {
        assert("jpg"@[0] != "png"@[0]);
    }
    assert("png"@ != "jpeg"@) by {
        assert("png"@.len() != "jpeg"@.len());
    }
}

/// Art that the tags of a file yield is never refused for its name: its key
/// names the format that its picture declared.
pub proof fn lemma_extracted_art_is_named(
    picture: PictureView,
    album_artist: Option<Seq<char>>,
    album: Option<Seq<char>>,
    year: Option<Seq<char>>,
)
    ensures
        art_for(Some(picture), album_artist, album, year) matches Some(art) ==> art_format(
            art.filename,
        ) == if picture.mime_type == "image/jpeg"@ {
            Some(ArtFormat::Jpeg)
        } else {
            Some(ArtFormat::Png)
        },
{
    match art_for(Some(picture), album_artist, album, year) {
        Some(art) => {
            let suffix = if picture.mime_type == "image/jpeg"@ {
                ".jpg"@
            } else {
                ".png"@
            };
            let (m, i) = choose|m: u32, i: u32| art.filename == key_text(m, i, suffix);
            lemma_key_names_its_format(m, i);
        },
        None => {},
    }
}

/// Brings a piece of art into the form in which it is uploaded: decoded by
/// the format its key names, cut to a square around its centre where it is
/// not square, scaled to the planned side, and encoded in the format it came
/// in.
///
/// Art whose key names no supported format, or whose bytes do not decode in
/// the format named, is refused as `UnsupportedFormat`, and no other art is.
/// Art that decodes comes out as `rendered_as` says, or fails as
/// `ProcessingFailed`.
pub fn render_album_art(album_art: &AlbumArt) -> (r: Result<RenderedArt, UploadError>)
    ensures
        match art_format(album_art.filename@) {
            Some(format) => match decoded_shape(album_art.data@, format) {
                Some(shape) => rendered_as(r, format, shape.0, shape.1, shape.2),
                None => r == Err::<RenderedArt, UploadError>(UploadError::UnsupportedFormat),
            },
            None => r == Err::<RenderedArt, UploadError>(UploadError::UnsupportedFormat),
        },
{
    let format = match format_of(&album_art.filename) {
        Some(f) => f,
        None => {
            return Err(UploadError::UnsupportedFormat);
        },
    };
    let source = match decode(album_art.data.as_slice(), format) {
        Ok(source) => source,
        Err(_) => {
            return Err(UploadError::UnsupportedFormat);
        },
    };
    let (width, height) = source.size();
    let plan = resize_plan(width, height);
    let canvas = match resample(&source, plan.side, scaling_for(plan.crop)) {
        Ok(canvas) => canvas,
        Err(_) => {
            return Err(UploadError::ProcessingFailed);
        },
    };
    let encoded = match format {
        ArtFormat::Jpeg => encode_jpeg(&canvas),
        ArtFormat::Png => encode_png(&canvas),
    };
    match encoded {
        Ok(art) => Ok(art),
        Err(_) => Err(UploadError::ProcessingFailed),
    }
}

} // verus!
