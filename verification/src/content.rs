//! Rules on request bodies: JSON bodies must say so in `Content-Type`, and
//! uploaded archives must be non-empty zip files sent as `application/zip`.
use vstd::prelude::*;
use vstd::string::*;

use crate::errors::{prefixed, RouteError};
use crate::text::{ascii_ci_eq, ascii_ci_equal, opt_str, str_eq};
use crate::types::Json;

verus! {

/// Largest request body read for an upload, in bytes (100 MB).
pub const FILE_LIMIT: usize = 100_000_000;

/// A media type split as `mime` parses it: its written form (what `Display` writes), type, subtype and
/// optional `+suffix`.
pub struct MediaType {
    pub display: String,
    pub type_: String,
    pub subtype: String,
    pub suffix: Option<String>,
}

/// The parts of a media type, as text.
pub struct MediaTypeView {
    pub display: Seq<char>,
    pub type_: Seq<char>,
    pub subtype: Seq<char>,
    pub suffix: Option<Seq<char>>,
}

impl View for MediaType {
    type V = MediaTypeView;

    open spec fn view(&self) -> MediaTypeView {
        MediaTypeView {
            display: self.display@,
            type_: self.type_@,
            subtype: self.subtype@,
            suffix: match self.suffix {
                Some(s) => Some(s@),
                None => None,
            },
        }
    }
}

/// What parsing `s` as a `mime::Mime` gives: the parts of the media type, or
/// none where `s` is not one.
pub uninterp spec fn mime_parse(s: Seq<char>) -> Option<MediaTypeView>;

/// `s.parse::<mime::Mime>()`, read through `to_string`, `type_`, `subtype` and
/// `suffix`: its result is named by `mime_parse`.
#[verifier::external_body]
fn parse_media_type(s: &str) -> (res: Option<MediaType>)
    ensures
        match res {
            Some(m) => mime_parse(s@) == Some(m@),
            None => mime_parse(s@) is None,
        },
{
    match s.parse::<mime::Mime>() {
        Ok(m) => Some(MediaType {
            display: m.to_string(),
            type_: m.type_().as_str().to_string(),
            subtype: m.subtype().as_str().to_string(),
            suffix: match m.suffix() {
                Some(n) => Some(n.as_str().to_string()),
                None => None,
            },
        }),
        Err(_) => None,
    }
}

/// Whether a parsed media type is JSON: type `application` with subtype `json`
/// or a `+json` suffix (names compared without regard to ASCII case).
pub open spec fn is_json_media_type(m: MediaTypeView) -> bool {
    ascii_ci_equal(m.type_, "application"@) && (ascii_ci_equal(m.subtype, "json"@) || (
    m.suffix matches Some(x) && ascii_ci_equal(x, "json"@)))
}

/// Whether a request whose `Content-Type` header reads `content_type` (none
/// where the header is missing or is not visible ASCII) carries JSON.
pub open spec fn json_content_type_spec(content_type: Option<Seq<char>>) -> bool {
    match content_type {
        None => false,
        Some(s) => match mime_parse(s) {
            None => false,
            Some(m) => is_json_media_type(m),
        },
    }
}

/// Whether a request whose `Content-Type` header reads `content_type` carries
/// JSON: the header is there, parses as a media type, and that type is
/// `application/json` or `application/*+json`.
pub fn json_content_type(content_type: Option<&str>) -> (res: bool)
    ensures
        res == json_content_type_spec(opt_str(content_type)),
{
    let text = match content_type {
        Some(text) => text,
        None => return false,
    };
    match parse_media_type(text) {
        Some(media) => is_json(&media),
        None => false,
    }
}

/// Whether a parsed media type is JSON: type `application` with subtype `json`
/// or a `+json` suffix, names compared without regard to ASCII case.
pub fn is_json(media: &MediaType) -> (res: bool)
    ensures
        res == is_json_media_type(media@),
{
    if !ascii_ci_eq(media.type_.as_str(), "application") {
        return false;
    }
    if ascii_ci_eq(media.subtype.as_str(), "json") {
        return true;
    }
    match &media.suffix {
        Some(suffix) => ascii_ci_eq(suffix.as_str(), "json"),
        None => false,
    }
}

/// A media type is JSON only under the `application` type: whatever its subtype
/// and suffix, any other type (ASCII case ignored) is not JSON.
pub proof fn lemma_json_needs_application(m: MediaTypeView)
    ensures
        !ascii_ci_equal(m.type_, "application"@) ==> !is_json_media_type(m),
{
}

/// A media type is JSON only by its name: where neither the subtype nor the
/// `+suffix` reads `json` (ASCII case ignored), as in `application/atom+xml`,
/// `application/xhtml+xml` or `application/xml`, it is not JSON; and where
/// neither has four characters it is not JSON either, whatever they hold.
pub proof fn lemma_json_needs_json_name(m: MediaTypeView)
    ensures
        !ascii_ci_equal(m.subtype, "json"@) && (match m.suffix {
            Some(x) => !ascii_ci_equal(x, "json"@),
            None => true,
        }) ==> !is_json_media_type(m),
        m.subtype.len() != 4 && (match m.suffix {
            Some(x) => x.len() != 4,
            None => true,
        }) ==> !is_json_media_type(m),
{
    reveal_strlit("json");
}

/// Under the `application` type, a `json` subtype or a `+json` suffix (ASCII
/// case ignored) makes a media type JSON, whatever the other part holds.
pub proof fn lemma_json_accepted(m: MediaTypeView)
    requires
        ascii_ci_equal(m.type_, "application"@),
        ascii_ci_equal(m.subtype, "json"@) || (m.suffix matches Some(x) && ascii_ci_equal(x, "json"@)),
    ensures
        is_json_media_type(m),
{
}

/// A request carries JSON only when its `Content-Type` is there and parses as
/// a JSON media type: a missing or unparsable header, or one that parses as a
/// type whose subtype and suffix are not `json` (such as `application/atom+xml`),
/// is refused; one that parses as `application/json` or `application/*+json` is
/// accepted.
pub proof fn lemma_json_content_type(s: Seq<char>)
    ensures
        !json_content_type_spec(None),
        mime_parse(s) is None ==> !json_content_type_spec(Some(s)),
        mime_parse(s) matches Some(m) && !ascii_ci_equal(m.subtype, "json"@) && (match m.suffix {
            Some(x) => !ascii_ci_equal(x, "json"@),
            None => true,
        }) ==> !json_content_type_spec(Some(s)),
        mime_parse(s) matches Some(m) && !ascii_ci_equal(m.type_, "application"@) ==> !json_content_type_spec(
            Some(s),
        ),
        mime_parse(s) matches Some(m) && ascii_ci_equal(m.type_, "application"@) && (ascii_ci_equal(
            m.subtype,
            "json"@,
        ) || (m.suffix matches Some(x) && ascii_ci_equal(x, "json"@))) ==> json_content_type_spec(Some(s)),
{
    if let Some(m) = mime_parse(s) {
        lemma_json_needs_application(m);
        lemma_json_needs_json_name(m);
    }
}

impl<T> Json<T> {
    /// Whether a request whose `Content-Type` reads `content_type` may be read
    /// as JSON; one that may not is refused as missing the `Content-Type` header.
    pub fn check_content_type(content_type: Option<&str>) -> (res: Result<(), RouteError>)
        ensures
            if json_content_type_spec(opt_str(content_type)) {
                res is Ok
            } else {
                res matches Err(RouteError::MissingHeader(h)) && h@ == "Content-Type"@
            },
    {
        if json_content_type(content_type) {
            Ok(())
        } else {
            Err(RouteError::MissingHeader(String::from_str("Content-Type")))
        }
    }
}

/// What reading `bytes` as a zip archive gives: its number of entries, or the
/// message of the error that refuses it.
pub uninterp spec fn zip_entries(bytes: Seq<u8>) -> Result<nat, Seq<char>>;

/// `zip::ZipArchive::new` over the bytes, then `len`: its result is named by
/// `zip_entries`.
#[verifier::external_body]
fn zip_entry_count(bytes: &[u8]) -> (res: Result<usize, String>)
    ensures
        match res {
            Ok(n) => zip_entries(bytes@) == Ok::<nat, Seq<char>>(n as nat),
            Err(m) => zip_entries(bytes@) == Err::<nat, Seq<char>>(m@),
        },
{
    match zip::ZipArchive::new(std::io::Cursor::new(bytes)) {
        Ok(archive) => Ok(archive.len()),
        Err(e) => Err(e.to_string()),
    }
}

/// An uploaded archive: the bytes of a zip file with at least one entry.
pub struct ZipFile {
    bytes: Vec<u8>,
}

impl ZipFile {
    /// The bytes of the archive.
    pub closed spec fn bytes(&self) -> Seq<u8> {
        self.bytes@
    }

    /// The archive holds at least one entry.
    pub closed spec fn well_formed(&self) -> bool {
        zip_entries(self.bytes@) matches Ok(n) && n > 0
    }

    /// Whether a request whose `Content-Type` reads `content_type` (none where
    /// the header is missing or is not a media type) may carry an archive:
    /// only `application/zip` may.
    pub fn check_content_type(content_type: Option<&str>) -> (res: Result<(), RouteError>)
        ensures
            match content_type {
                None => res matches Err(RouteError::MissingHeader(h)) && h@ == "content-type"@,
                Some(ct) => match mime_parse(ct@) {
                    None => res matches Err(RouteError::MissingHeader(h)) && h@ == "content-type"@,
                    Some(m) => if m.display == "application/zip"@ {
                        res is Ok
                    } else {
                        res matches Err(RouteError::Rejection(r)) && r@ == "only `application/zip` is supported"@
                    },
                },
            },
    {
        let media = match content_type {
            Some(ct) => parse_media_type(ct),
            None => None,
        };
        ZipFile::media_type_verdict(media)
    }

    /// Whether an archive may come with the media type `media` (none where the
    /// `Content-Type` header is missing or is not a media type).
    pub fn media_type_verdict(media: Option<MediaType>) -> (res: Result<(), RouteError>)
        ensures
            match media {
                None => res matches Err(RouteError::MissingHeader(h)) && h@ == "content-type"@,
                Some(m) => if m.display@ == "application/zip"@ {
                    res is Ok
                } else {
                    res matches Err(RouteError::Rejection(r)) && r@ == "only `application/zip` is supported"@
                },
            },
    {
        match media {
            None => Err(RouteError::MissingHeader(String::from_str("content-type"))),
            Some(m) => if str_eq(m.display.as_str(), "application/zip") {
                Ok(())
            } else {
                Err(RouteError::Rejection(String::from_str("only `application/zip` is supported")))
            },
        }
    }

    /// Whether an archive whose reading gave `entries` (its number of entries,
    /// or the reader's message) is accepted.
    pub fn entries_verdict(entries: Result<usize, String>) -> (res: Result<(), RouteError>)
        ensures
            match entries {
                Err(e) => res matches Err(RouteError::Rejection(r)) && r@ == "invalid archive. Error: "@ + e@,
                Ok(n) => if n == 0 {
                    res matches Err(RouteError::Rejection(r)) && r@ == "empty archive"@
                } else {
                    res is Ok
                },
            },
    {
        match entries {
            Err(e) => Err(RouteError::Rejection(prefixed("invalid archive. Error: ", e.as_str()))),
            Ok(n) => if n == 0 {
                Err(RouteError::Rejection(String::from_str("empty archive")))
            } else {
                Ok(())
            },
        }
    }

    /// The archive in a request body, given as read (or the message of the
    /// error that stopped the read): a body that could not be read, is not a
    /// zip archive, or holds no entry is refused.
    pub fn from_body(body: Result<Vec<u8>, String>) -> (res: Result<ZipFile, RouteError>)
        ensures
            match body {
                Err(e) => res matches Err(RouteError::Rejection(r))
                    && r@ == "failed to extract request body. Error: "@ + e@,
                Ok(bytes) => match zip_entries(bytes@) {
                    Err(e) => res matches Err(RouteError::Rejection(r)) && r@ == "invalid archive. Error: "@ + e,
                    Ok(n) => if n == 0 {
                        res matches Err(RouteError::Rejection(r)) && r@ == "empty archive"@
                    } else {
                        res matches Ok(z) && z.bytes() == bytes@ && z.well_formed()
                    },
                },
            },
    {
        let bytes = match body {
            Err(e) => {
                return Err(
                    RouteError::Rejection(prefixed("failed to extract request body. Error: ", e.as_str())),
                );
            },
            Ok(bytes) => bytes,
        };
        let entries = zip_entry_count(bytes.as_slice());
        match ZipFile::entries_verdict(entries) {
            Err(e) => Err(e),
            Ok(()) => Ok(ZipFile { bytes }),
        }
    }

    /// The bytes of the archive, to be stored.
    pub fn into_inner(self) -> (res: Vec<u8>)
        ensures
            res@ == self.bytes(),
    {
        self.bytes
    }
}

} // verus!
