//! Images: where the platform serves them, and how they are sent to it.

use vstd::prelude::*;
use vstd::string::*;

use crate::wire::Primitive;

verus! {

/// A format that images are served and taken in.
#[derive(Debug, Clone, Copy, Eq, Hash, PartialEq, Structural)]
#[non_exhaustive]
pub enum Format {
    Png,
    Jpeg,
    WebP,
    Gif,
}

impl Format {
    /// The file extension under which an image of this format is served.
    pub open spec fn spec_extension(self) -> Seq<char> {
        match self {
            Format::Png => "png"@,
            Format::Jpeg => "jpg"@,
            Format::WebP => "webp"@,
            Format::Gif => "gif"@,
        }
    }

    /// The media type by which an image of this format is announced.
    pub open spec fn spec_media_type(self) -> Seq<char> {
        match self {
            Format::Png => "image/png"@,
            Format::Jpeg => "image/jpeg"@,
            Format::Gif => "image/gif"@,
            Format::WebP => "image/webp"@,
        }
    }

    /// The file extension under which an image of this format is served.
    pub fn extension(self) -> (r: &'static str)
        ensures
            r@ == self.spec_extension(),
    {
        match self {
            Format::Png => "png",
            Format::Jpeg => "jpg",
            Format::WebP => "webp",
            Format::Gif => "gif",
        }
    }

    /// The media type by which an image of this format is announced.
    pub fn media_type(self) -> (r: &'static str)
        ensures
            r@ == self.spec_media_type(),
    {
        match self {
            Format::Png => "image/png",
            Format::Jpeg => "image/jpeg",
            Format::Gif => "image/gif",
            Format::WebP => "image/webp",
        }
    }
}

/// The path of an image that is served at `bare_path` in the format
/// `format`: the two with a dot between.
pub open spec fn spec_image_path(bare_path: Seq<char>, format: Format) -> Seq<char> {
    bare_path + "."@ + format.spec_extension()
}

/// An image that the platform serves.
pub trait Image {
    /// Whether the image is served in `format`.
    spec fn spec_supports(&self, format: Format) -> bool;

    /// The path of the image without the extension.
    spec fn spec_bare_path(&self) -> Seq<char>;

    /// Whether the image is served in `format`.
    fn supports(&self, format: Format) -> (r: bool)
        ensures
            r == self.spec_supports(format),
    ;

    /// The path of the image without the extension.
    fn bare_path(&self) -> (r: &str)
        ensures
            r@ == self.spec_bare_path(),
    ;

    /// The path of the image in `format`, below the root that images are
    /// served from; none where the image is not served in that format.
    fn path(&self, format: Format) -> (r: Option<String>)
        ensures
            match r {
                Some(p) => self.spec_supports(format) && p@ == spec_image_path(
                    self.spec_bare_path(),
                    format,
                ),
                None => !self.spec_supports(format),
            },
    {
        if self.supports(format) {
            let mut p = String::from_str(self.bare_path());
            p.append(".");
            p.append(format.extension());
            Some(p)
        } else {
            None
        }
    }
}

/// The text that the octets `data` make in base 64, with the standard
/// alphabet and with padding.
pub uninterp spec fn base64_standard(data: Seq<u8>) -> Seq<char>;

/// Whether `len` octets can be put in base 64 on this machine. The text has
/// four characters for every three octets begun, and its length has to fit
/// in a `usize`. No list of octets that fits in memory fails this.
pub open spec fn base64_fits(len: nat) -> bool {
    (len / 3) * 4 + 4 <= usize::MAX
}

/// `base64::Engine::encode` of the engine `STANDARD`: the octets in base 64,
/// standard alphabet, padded. What the text is stands under the name
/// [`base64_standard`]; nothing more is claimed of it. The call panics
/// where the length of the text does not fit in a `usize`, which the
/// precondition keeps out.
#[verifier::external_body]
fn base64_encode(data: &[u8]) -> (r: String)
    requires
        base64_fits(data@.len()),
    ensures
        r@ == base64_standard(data@),
{
    base64::Engine::encode(&base64::engine::general_purpose::STANDARD, data)
}

/// The data URI that holds an image of the format `format` whose octets
/// make `encoded` in base 64.
pub open spec fn spec_data_uri(format: Format, encoded: Seq<char>) -> Seq<char> {
    "data:"@ + format.spec_media_type() + ";base64,"@ + encoded
}

/// The data URI for the format `format` and the base-64 text `encoded`.
pub fn data_uri(format: Format, encoded: &str) -> (r: String)
    ensures
        r@ == spec_data_uri(format, encoded@),
{
    let mut txt = String::from_str("data:");
    txt.append(format.media_type());
    txt.append(";base64,");
    txt.append(encoded);
    txt
}

/// An image to send to the platform.
#[derive(Debug, Clone)]
pub struct UploadImage {
    pub format: Format,
    pub data: Vec<u8>,
}

impl UploadImage {
    /// The image of the format `format` with the octets `data`.
    pub fn new(format: Format, data: Vec<u8>) -> (r: Self)
        ensures
            r == (UploadImage { format, data }),
    {
        UploadImage { format, data }
    }

    /// Whether the image is small enough to be put in base 64 on this
    /// machine. Every image that fits in memory is.
    pub fn can_encode(&self) -> (r: bool)
        ensures
            r == base64_fits(self.data@.len()),
    {
        self.data.len() / 3 <= (usize::MAX - 4) / 4
    }

    /// The image as a data URI, the form it travels in.
    pub fn to_data_uri(&self) -> (r: String)
        requires
            base64_fits(self.data@.len()),
        ensures
            r@ == spec_data_uri(self.format, base64_standard(self.data@)),
    {
        let encoded = base64_encode(self.data.as_slice());
        data_uri(self.format, encoded.as_str())
    }

    /// The wire form: the data URI, as text.
    pub fn serialize(&self) -> (r: Primitive)
        requires
            base64_fits(self.data@.len()),
        ensures
            r matches Primitive::Text(s) && s@ == spec_data_uri(
                self.format,
                base64_standard(self.data@),
            ),
    {
        Primitive::Text(self.to_data_uri())
    }
}

} // verus!
