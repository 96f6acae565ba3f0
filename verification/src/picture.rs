use crate::asset::{Asset, AssetError, AssetLoader};
use vstd::prelude::*;

verus! {

#[non_exhaustive]
#[derive(Debug, Clone, Copy, PartialEq, Eq, Structural)]
pub enum ImageFormat {
    RGBA8,
}

/// A decoded image: its pixels in the given format, row by row.
pub struct Image {
    data: Vec<u8>,
    width: u32,
    height: u32,
    format: ImageFormat,
}

impl Image {
    pub closed spec fn spec_data(&self) -> Seq<u8> {
        self.data@
    }

    pub closed spec fn spec_width(&self) -> u32 {
        self.width
    }

    pub closed spec fn spec_height(&self) -> u32 {
        self.height
    }

    pub closed spec fn spec_format(&self) -> ImageFormat {
        self.format
    }

    pub fn data(&self) -> (d: &[u8])
        ensures
            d@ == self.spec_data(),
    {
        self.data.as_slice()
    }

    pub fn width(&self) -> (w: u32)
        ensures
            w == self.spec_width(),
    {
        self.width
    }

    pub fn height(&self) -> (h: u32)
        ensures
            h == self.spec_height(),
    {
        self.height
    }

    pub fn format(&self) -> (f: ImageFormat)
        ensures
            f == self.spec_format(),
    {
        self.format
    }
}

impl Asset for Image {
    type Loader = ImageLoader;
}

/// The RGBA8 pixels, the width and the height that the `image` crate decodes from a file's
/// bytes, when it recognises and decodes them.
pub uninterp spec fn decoded_rgba8(bytes: Seq<u8>) -> Option<(Seq<u8>, u32, u32)>;

/// Calls `image::load_from_memory`, which guesses the format and decodes, then takes the
/// pixels as RGBA8 (four bytes a pixel, row by row) with the width and the height.
#[verifier::external_body]
fn decode_rgba8(bytes: &[u8]) -> (r: Option<(Vec<u8>, u32, u32)>)
    ensures
        match r {
            Some((data, width, height)) => decoded_rgba8(bytes@) == Some((data@, width, height))
                && data@.len() == width * height * 4,
            None => decoded_rgba8(bytes@) is None,
        },
{
    match image::load_from_memory(bytes) {
        Ok(decoded) => {
            let rgba = decoded.into_rgba8();
            let (width, height) = (rgba.width(), rgba.height());
            Some((rgba.into_raw(), width, height))
        },
        Err(_) => None,
    }
}

/// Loads images in the formats the `image` crate recognises.
pub struct ImageLoader;

impl AssetLoader<Image> for ImageLoader {
    /// The decoded image, as RGBA8 pixels; bytes that do not decode are an error.
    fn load(file_content: &[u8]) -> (r: Result<Image, AssetError>)
        ensures
            match decoded_rgba8(file_content@) {
                Some((data, width, height)) => r matches Ok(image) && image.spec_data() == data
                    && image.spec_width() == width && image.spec_height() == height
                    && image.spec_format() == ImageFormat::RGBA8
                    && data.len() == width * height * 4,
                None => r matches Err(AssetError::ImageDecodingFailed),
            },
    {
        match decode_rgba8(file_content) {
            Some((data, width, height)) => Ok(Image { data, width, height, format: ImageFormat::RGBA8 }),
            None => Err(AssetError::ImageDecodingFailed),
        }
    }
}

} // verus!
