//! Clipboard payloads and the formats that identify them.

use vstd::prelude::*;
use vstd::string::StringSliceAdditionalSpecFns;
use vstd::utf8::{decode_utf8, encode_utf8, valid_utf8};
use crate::error::{invalid_text_message, ClipboardError};
use crate::image_data::RustImageData;

verus! {

/// Identifies one representation that a clipboard can hold.
#[derive(Clone, Debug, PartialEq, Eq)]
pub enum ContentFormat {
    Text,
    Rtf,
    Html,
    Image,
    Files,
    /// A caller-defined format, by its name.
    Other(String),
}

/// One clipboard payload. Each case owns its data.
pub enum ClipboardContent {
    Text(String),
    Rtf(String),
    Html(String),
    Image(RustImageData),
    /// The paths of a file list, in the order the clipboard reports them.
    Files(Vec<String>),
    /// An opaque payload under a caller-defined format name.
    Other(String, Vec<u8>),
}

/// Uniform access to a payload, whatever its kind.
pub trait ContentData {
    /// The format that the content is in.
    spec fn spec_format(&self) -> ContentFormat;

    /// The content as bytes; empty where it has no byte form.
    spec fn spec_bytes(&self) -> Seq<u8>;

    /// The content as text, where it has a textual form.
    spec fn spec_text(&self) -> Option<Seq<char>>;

    /// The format of the content.
    fn get_format(&self) -> (format: ContentFormat)
        ensures
            format == self.spec_format(),
    ;

    /// The content as bytes. Never fails.
    fn as_bytes(&self) -> (bytes: &[u8])
        ensures
            bytes@ == self.spec_bytes(),
    ;

    /// The content as text: succeeds exactly where it has a textual form.
    fn as_str(&self) -> (text: Result<&str, ClipboardError>)
        ensures
            match self.spec_text() {
                Some(t) => text is Ok && text->Ok_0@ == t,
                None => text is Err,
            },
    ;
}

/// Validates `bytes` as UTF-8 with `std::str::from_utf8` and hands back the
/// text that they encode. Claimed of it: it succeeds exactly on valid UTF-8,
/// and the text it returns is encoded by the very bytes it was given.
#[verifier::external_body]
fn text_of_bytes<'a>(bytes: &'a [u8]) -> (text: Option<&'a str>)
    ensures
        text is Some <==> valid_utf8(bytes@),
        text is Some ==> text->Some_0.spec_bytes() == bytes@,
{
    match std::str::from_utf8(bytes) {
        Ok(s) => Some(s),
        Err(_) => None,
    }
}

impl ClipboardContent {
    /// Why the payload has no textual form, where it has none: an image
    /// is not text, an empty file list holds no path, and opaque bytes that
    /// are not UTF-8 do not decode.
    pub open spec fn text_failure(&self, err: ClipboardError) -> bool {
        match self {
            ClipboardContent::Image(_) => err == ClipboardError::NotText,
            ClipboardContent::Files(_) => err == ClipboardError::EmptyContent,
            _ => err is Decode && err->Decode_0@ == invalid_text_message(),
        }
    }
}

/// A text payload is in the text format; its bytes are the UTF-8 encoding
/// of the text, and its textual form is the text itself.
pub proof fn lemma_text_content(s: String)
    ensures
        ClipboardContent::Text(s).spec_format() == ContentFormat::Text,
        ClipboardContent::Text(s).spec_bytes() == encode_utf8(s@),
        ClipboardContent::Text(s).spec_text() == Some(s@),
{
}

/// A file list reads as its first path alone. An empty list has no
/// textual form, and the only failure it admits is `EmptyContent`.
pub proof fn lemma_files_content(list: Vec<String>, err: ClipboardError)
    ensures
        list@.len() > 0 ==> ClipboardContent::Files(list).spec_text() == Some(list@[0]@),
        list@.len() > 0 ==> ClipboardContent::Files(list).spec_bytes() == encode_utf8(list@[0]@),
        list@.len() == 0 ==> ClipboardContent::Files(list).spec_text() is None,
        ClipboardContent::Files(list).text_failure(err) <==> err == ClipboardError::EmptyContent,
{
}

/// An image never has a textual form, the only failure it admits is
/// `NotText`, and it has no bytes.
pub proof fn lemma_image_content(image: RustImageData, err: ClipboardError)
    ensures
        ClipboardContent::Image(image).spec_format() == ContentFormat::Image,
        ClipboardContent::Image(image).spec_text() is None,
        ClipboardContent::Image(image).text_failure(err) <==> err == ClipboardError::NotText,
        ClipboardContent::Image(image).spec_bytes() == Seq::<u8>::empty(),
{
}

/// Every payload that has a textual form has bytes, and for the text-like
/// kinds the bytes are the encoding of that text.
pub proof fn lemma_text_bytes_agree(content: ClipboardContent)
    requires
        content.spec_text() is Some,
    ensures
        content.spec_bytes() == encode_utf8(content.spec_text()->Some_0),
{
    match content {
        ClipboardContent::Other(_, data) => {
            vstd::utf8::decode_utf8_encode_utf8(data@);
        },
        _ => {},
    }
}

impl ContentData for ClipboardContent {
    /// The format is read off the payload's case; nothing else records it.
    open spec fn spec_format(&self) -> ContentFormat {
        match self {
            ClipboardContent::Text(_) => ContentFormat::Text,
            ClipboardContent::Rtf(_) => ContentFormat::Rtf,
            ClipboardContent::Html(_) => ContentFormat::Html,
            ClipboardContent::Image(_) => ContentFormat::Image,
            ClipboardContent::Files(_) => ContentFormat::Files,
            ClipboardContent::Other(name, _) => ContentFormat::Other(*name),
        }
    }

    /// The UTF-8 encoding of a text, the encoding of the first path of a
    /// file list, the raw bytes of an opaque payload, and nothing for an
    /// image or an empty file list.
    open spec fn spec_bytes(&self) -> Seq<u8> {
        match self {
            ClipboardContent::Text(s) => encode_utf8(s@),
            ClipboardContent::Rtf(s) => encode_utf8(s@),
            ClipboardContent::Html(s) => encode_utf8(s@),
            ClipboardContent::Image(_) => Seq::empty(),
            ClipboardContent::Files(list) => if list@.len() == 0 {
                Seq::empty()
            } else {
                encode_utf8(list@[0]@)
            },
            ClipboardContent::Other(_, data) => data@,
        }
    }

    /// A text as it is, the first path of a file list, and the text that
    /// an opaque payload encodes where it is valid UTF-8.
    open spec fn spec_text(&self) -> Option<Seq<char>> {
        match self {
            ClipboardContent::Text(s) => Some(s@),
            ClipboardContent::Rtf(s) => Some(s@),
            ClipboardContent::Html(s) => Some(s@),
            ClipboardContent::Image(_) => None,
            ClipboardContent::Files(list) => if list@.len() == 0 {
                None
            } else {
                Some(list@[0]@)
            },
            ClipboardContent::Other(_, data) => if valid_utf8(data@) {
                Some(decode_utf8(data@))
            } else {
                None
            },
        }
    }

    fn get_format(&self) -> (format: ContentFormat) {
        match self {
            ClipboardContent::Text(_) => ContentFormat::Text,
            ClipboardContent::Rtf(_) => ContentFormat::Rtf,
            ClipboardContent::Html(_) => ContentFormat::Html,
            ClipboardContent::Image(_) => ContentFormat::Image,
            ClipboardContent::Files(_) => ContentFormat::Files,
            ClipboardContent::Other(name, _) => ContentFormat::Other(name.clone()),
        }
    }

    fn as_bytes(&self) -> (bytes: &[u8]) {
        match self {
            ClipboardContent::Text(data) => data.as_str().as_bytes(),
            ClipboardContent::Rtf(data) => data.as_str().as_bytes(),
            ClipboardContent::Html(data) => data.as_str().as_bytes(),
            ClipboardContent::Image(_) => &[],
            ClipboardContent::Files(data) => {
                if data.len() > 0 {
                    data[0].as_str().as_bytes()
                } else {
                    &[]
                }
            },
            ClipboardContent::Other(_, data) => data.as_slice(),
        }
    }

    fn as_str(&self) -> (text: Result<&str, ClipboardError>)
        ensures
            text is Err ==> self.text_failure(text->Err_0),
    {
        match self {
            ClipboardContent::Text(data) => Ok(data.as_str()),
            ClipboardContent::Rtf(data) => Ok(data.as_str()),
            ClipboardContent::Html(data) => Ok(data.as_str()),
            ClipboardContent::Image(_) => Err(ClipboardError::NotText),
            ClipboardContent::Files(data) => {
                if data.len() > 0 {
                    Ok(data[0].as_str())
                } else {
                    Err(ClipboardError::EmptyContent)
                }
            },
            ClipboardContent::Other(_, data) => {
                match text_of_bytes(data.as_slice()) {
                    Some(s) => {
                        proof {
                            vstd::utf8::encode_utf8_decode_utf8(s@);
                        }
                        Ok(s)
                    },
                    None => Err(ClipboardError::Decode("content is not valid UTF-8".to_owned())),
                }
            },
        }
    }
}

} // verus!
