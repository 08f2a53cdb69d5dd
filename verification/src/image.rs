//! The logo of an invoice: where it comes from, and how loading it can
//! fail.

use vstd::prelude::*;
use vstd::string::StrSliceExecFns;
use vstd::string::StringExecFns;
use printpdf::RawImage;
use crate::pdf::{decode_from_bytes, decoded_image};

verus! {

/// Where an image is to be fetched from.
#[derive(Debug, Clone, Copy, PartialEq, Eq)]
pub enum ImageSource {
    /// From the network, by its URL.
    Remote,
    /// From a file, by its path.
    Local,
}

/// Why an image could not be loaded. Each reason carries the words of
/// whoever reported it.
#[derive(Debug, Clone, PartialEq, Eq)]
pub enum ImageLoadError {
    /// The request for the URL failed.
    Download { cause: String },
    /// The server answered with a status other than success.
    Status { status: String },
    /// The body of the server's answer could not be read.
    Response { cause: String },
    /// The file could not be read.
    File { cause: String },
    /// The bytes are not an image that can be decoded.
    Decode { cause: String },
}

/// Whether a text begins with the characters of another.
pub open spec fn begins_with(s: Seq<char>, prefix: Seq<char>) -> bool {
    prefix.len() <= s.len() && s.take(prefix.len() as int) == prefix
}

/// Where the image at a path is to be fetched from: from the network where
/// the path begins with `http://` or `https://`, else from a file.
pub open spec fn source_of(path: Seq<char>) -> ImageSource {
    if begins_with(path, "http://"@) || begins_with(path, "https://"@) {
        ImageSource::Remote
    } else {
        ImageSource::Local
    }
}

/// What becomes of the bytes of an image file: the decoded image, or the
/// failure to decode them with its reason.
pub open spec fn image_of(bytes: Seq<u8>, image: Result<RawImage, ImageLoadError>) -> bool {
    match decoded_image(bytes) {
        Ok(decoded) => image == Ok::<RawImage, ImageLoadError>(decoded),
        Err(reason) => image matches Err(ImageLoadError::Decode { cause }) && cause@ == reason,
    }
}

/// What becomes of what a reader gave for an image: its failure, or what
/// becomes of the bytes that it gave.
pub open spec fn image_in(
    outcome: Result<Vec<u8>, ImageLoadError>,
    image: Result<RawImage, ImageLoadError>,
) -> bool {
    match outcome {
        Ok(bytes) => image_of(bytes@, image),
        Err(failure) => image == Err::<RawImage, ImageLoadError>(failure),
    }
}

/// Whether `image` is what becomes of what the reader gave when asked for
/// the image at the path, from the source that the path tells.
pub open spec fn image_loaded<G: Fn(&String, ImageSource) -> Result<Vec<u8>, ImageLoadError>>(
    read: G,
    path: &String,
    image: Result<RawImage, ImageLoadError>,
) -> bool {
    exists|outcome: Result<Vec<u8>, ImageLoadError>| #[trigger]
        read.ensures((path, source_of(path@)), outcome) && image_in(outcome, image)
}

/// Whether a text begins with the characters of another.
pub fn starts_with(s: &str, prefix: &str) -> (found: bool)
    ensures
        found == begins_with(s@, prefix@),
{
    let len = prefix.unicode_len();
    if s.unicode_len() < len {
        return false;
    }
    let mut i: usize = 0;
    while i < len
        invariant
            i <= len,
            len == prefix@.len(),
            len <= s@.len(),
            s@.take(i as int) == prefix@.take(i as int),
        decreases len - i,
    {
        if s.get_char(i) != prefix.get_char(i) {
            assert(s@.take(len as int)[i as int] != prefix@[i as int]);
            return false;
        }
        assert(s@.take(i + 1) =~= s@.take(i as int).push(s@[i as int]));
        assert(prefix@.take(i + 1) =~= prefix@.take(i as int).push(prefix@[i as int]));
        i += 1;
    }
    assert(prefix@.take(len as int) =~= prefix@);
    true
}

/// Tells where the image at a path is to be fetched from.
pub fn image_source(image_path: &str) -> (source: ImageSource)
    ensures
        source == source_of(image_path@),
{
    if starts_with(image_path, "http://") || starts_with(image_path, "https://") {
        ImageSource::Remote
    } else {
        ImageSource::Local
    }
}

/// Decodes the bytes of an image file.
pub fn decode_image(image_bytes: &Vec<u8>) -> (image: Result<RawImage, ImageLoadError>)
    ensures
        image_of(image_bytes@, image),
{
    match decode_from_bytes(image_bytes) {
        Ok(decoded) => Ok(decoded),
        Err(reason) => Err(ImageLoadError::Decode { cause: reason }),
    }
}

/// Loads the image at a path or URL: asks the reader for its bytes, telling
/// it whether to fetch them from the network or from a file, and decodes
/// them. Fails where the reader fails and where the bytes cannot be
/// decoded.
pub fn load_image<G: Fn(&String, ImageSource) -> Result<Vec<u8>, ImageLoadError>>(
    image_path: &String,
    read: &G,
) -> (image: Result<RawImage, ImageLoadError>)
    requires
        forall|path: &String, source: ImageSource| read.requires((path, source)),
    ensures
        image_loaded(*read, image_path, image),
{
    let outcome = read(image_path, image_source(image_path.as_str()));
    let ghost given = outcome;
    let image = match outcome {
        Ok(image_bytes) => decode_image(&image_bytes),
        Err(failure) => Err(failure),
    };
    assert(read.ensures((image_path, source_of(image_path@)), given));
    assert(image_in(given, image));
    image
}

impl ImageLoadError {
    /// What went wrong, in words.
    pub open spec fn message_text(self) -> Seq<char> {
        match self {
            ImageLoadError::Download { cause } => "Failed to download image from URL: "@ + cause@,
            ImageLoadError::Status { status } => "Failed to download image: HTTP "@ + status@,
            ImageLoadError::Response { cause } => "Failed to read response bytes: "@ + cause@,
            ImageLoadError::File { cause } => "Failed to read local image file: "@ + cause@,
            ImageLoadError::Decode { cause } => "Failed to decode image: "@ + cause@,
        }
    }

    /// What went wrong, in words.
    pub fn message(&self) -> (text: String)
        ensures
            text@ == self.message_text(),
    {
        match self {
            ImageLoadError::Download { cause } => String::from_str(
                "Failed to download image from URL: ",
            ).concat(cause.as_str()),
            ImageLoadError::Status { status } => String::from_str(
                "Failed to download image: HTTP ",
            ).concat(status.as_str()),
            ImageLoadError::Response { cause } => String::from_str(
                "Failed to read response bytes: ",
            ).concat(cause.as_str()),
            ImageLoadError::File { cause } => String::from_str(
                "Failed to read local image file: ",
            ).concat(cause.as_str()),
            ImageLoadError::Decode { cause } => String::from_str(
                "Failed to decode image: ",
            ).concat(cause.as_str()),
        }
    }
}

} // verus!
