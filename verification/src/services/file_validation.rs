//! The checks on an uploaded file: its size, and its type as claimed by the
//! uploader and as its first bytes show it.
use vstd::prelude::*;
use crate::text::{
    before_first, concat_str, decimal_text, lowercased, prefix_before, str_eq, to_decimal,
    to_lowercase, trim, trimmed,
};
use crate::utils::error::{rejected_as, rejection, AppError, AppResult, ErrorKind, Rejection};

verus! {

/// The largest file that is accepted, in bytes: 25 MiB.
pub const MAX_FILE_SIZE: usize = 26_214_400;

/// How many of the first bytes of a file are looked at to tell text from
/// binary data.
pub const TEXT_SAMPLE_SIZE: usize = 512;

/// The type given to data that shows no type of its own.
pub const GENERIC_BINARY: &'static str = "application/octet-stream";

/// The outcome of validating a file.
#[derive(Debug, Clone, PartialEq, Eq)]
pub struct FileValidationResult {
    pub is_valid: bool,
    pub detected_mime: String,
    pub error: Option<String>,
}

/// Whether a file of the type `mime` is accepted.
pub open spec fn allowed_mime(mime: Seq<char>) -> bool {
    ||| mime == "application/octet-stream"@
    ||| mime == "image/jpeg"@
    ||| mime == "image/jpg"@
    ||| mime == "image/png"@
    ||| mime == "image/gif"@
    ||| mime == "image/webp"@
    ||| mime == "image/svg+xml"@
    ||| mime == "video/mp4"@
    ||| mime == "video/webm"@
    ||| mime == "video/ogg"@
    ||| mime == "audio/mpeg"@
    ||| mime == "audio/ogg"@
    ||| mime == "audio/wav"@
    ||| mime == "audio/webm"@
    ||| mime == "application/pdf"@
    ||| mime == "text/plain"@
    ||| mime == "text/csv"@
    ||| mime == "application/json"@
    ||| mime == "application/zip"@
    ||| mime == "application/x-zip-compressed"@
}

/// Whether a file of the type `mime` is accepted.
pub fn is_allowed_mime(mime: &str) -> (r: bool)
    ensures
        r == allowed_mime(mime@),
{
    str_eq(mime, "application/octet-stream") || str_eq(mime, "image/jpeg") || str_eq(
        mime,
        "image/jpg",
    ) || str_eq(mime, "image/png") || str_eq(mime, "image/gif") || str_eq(mime, "image/webp")
        || str_eq(mime, "image/svg+xml") || str_eq(mime, "video/mp4") || str_eq(
        mime,
        "video/webm",
    ) || str_eq(mime, "video/ogg") || str_eq(mime, "audio/mpeg") || str_eq(mime, "audio/ogg")
        || str_eq(mime, "audio/wav") || str_eq(mime, "audio/webm") || str_eq(
        mime,
        "application/pdf",
    ) || str_eq(mime, "text/plain") || str_eq(mime, "text/csv") || str_eq(
        mime,
        "application/json",
    ) || str_eq(mime, "application/zip") || str_eq(mime, "application/x-zip-compressed")
}

/// Why data of `len` bytes is refused for its size, if it is: it is empty,
/// or larger than 25 MiB.
pub open spec fn size_rejection(len: nat) -> Option<Rejection> {
    if len == 0 {
        Some(rejection(ErrorKind::Validation, "File is empty"))
    } else if len > MAX_FILE_SIZE {
        Some(
            Rejection {
                kind: ErrorKind::Validation,
                text: "File too large: "@ + decimal_text(len) + " bytes (max "@ + decimal_text(
                    MAX_FILE_SIZE as nat,
                ) + " bytes)"@,
            },
        )
    } else {
        None
    }
}

/// Accepts data that is not empty and at most 25 MiB large.
pub fn validate_file_size(data: &[u8]) -> (res: AppResult<()>)
    ensures
        crate::utils::validation::decided(res, size_rejection(data@.len())),
{
    if data.len() == 0 {
        return Err(AppError::Validation("File is empty".to_string()));
    }
    if data.len() > MAX_FILE_SIZE {
        let size = to_decimal(data.len());
        let max = to_decimal(MAX_FILE_SIZE);
        let a = concat_str("File too large: ", size.as_str());
        let b = concat_str(a.as_str(), " bytes (max ");
        let c = concat_str(b.as_str(), max.as_str());
        let d = concat_str(c.as_str(), " bytes)");
        return Err(AppError::Validation(d));
    }
    Ok(())
}

/// The type that a content type names: in lower case, without parameters
/// and without surrounding white space.
pub open spec fn mime_base(content_type: Seq<char>) -> Seq<char> {
    trimmed(before_first(lowercased(content_type), ';'))
}

/// The type that a content type names.
pub fn base_type(content_type: &str) -> (r: String)
    ensures
        r@ == mime_base(content_type@),
{
    let normalized = to_lowercase(content_type);
    let first = prefix_before(normalized.as_str(), ';');
    trim(first).to_string()
}

/// Why a content type is refused, if it is: the type it names is not among
/// the accepted ones.
pub open spec fn mime_rejection(content_type: Seq<char>) -> Option<Rejection> {
    if allowed_mime(mime_base(content_type)) {
        None
    } else {
        Some(
            Rejection {
                kind: ErrorKind::Validation,
                text: "File type not allowed: "@ + mime_base(content_type)
                    + ". Allowed types: images, videos, audio, PDF, text, JSON, ZIP"@,
            },
        )
    }
}

/// Accepts a content type that names an accepted type.
pub fn validate_mime_type(content_type: &str) -> (res: AppResult<()>)
    ensures
        crate::utils::validation::decided(res, mime_rejection(content_type@)),
{
    let base = base_type(content_type);
    if !is_allowed_mime(base.as_str()) {
        let a = concat_str("File type not allowed: ", base.as_str());
        let b = concat_str(
            a.as_str(),
            ". Allowed types: images, videos, audio, PDF, text, JSON, ZIP",
        );
        return Err(AppError::Validation(b));
    }
    Ok(())
}

/// Whether a byte is one that text is made of: a line break, a tab, a
/// printable ASCII character, or a byte of a multi-byte character.
pub open spec fn text_byte(b: u8) -> bool {
    b == 0x0a || b == 0x0d || b == 0x09 || (32 <= b <= 126) || b >= 128
}

/// The number of text bytes among `data`.
pub open spec fn text_bytes(data: Seq<u8>) -> nat {
    data.filter(|b: u8| text_byte(b)).len()
}

/// The part of `data` that is looked at to tell text from binary data: its
/// first 512 bytes.
pub open spec fn text_sample(data: Seq<u8>) -> Seq<u8> {
    if data.len() <= TEXT_SAMPLE_SIZE {
        data
    } else {
        data.take(TEXT_SAMPLE_SIZE as int)
    }
}

/// Whether `data` looks like text: more than 85 in 100 of the bytes of its
/// sample are text bytes.
pub open spec fn likely_text(data: Seq<u8>) -> bool {
    text_bytes(text_sample(data)) * 100 > text_sample(data).len() * 85
}

/// Whether `data` looks like text.
pub fn is_likely_text(data: &[u8]) -> (r: bool)
    ensures
        r == likely_text(data@),
{
    let sample_size = if data.len() <= TEXT_SAMPLE_SIZE {
        data.len()
    } else {
        TEXT_SAMPLE_SIZE
    };
    let ghost sample = text_sample(data@);
    let ghost p = |b: u8| text_byte(b);
    let mut text_chars: usize = 0;
    let mut i: usize = 0;
    proof {
        reveal(Seq::filter);
        assert(sample.take(0) =~= Seq::<u8>::empty());
    }
    while i < sample_size
        invariant
            i <= sample_size,
            sample_size <= TEXT_SAMPLE_SIZE,
            sample_size == sample.len(),
            sample == text_sample(data@),
            sample_size <= data@.len(),
            p == (|b: u8| text_byte(b)),
            text_chars <= i,
            text_chars == sample.take(i as int).filter(p).len(),
        decreases sample_size - i,
    {
        let byte = data[i];
        proof {
            crate::database::table::lemma_filter_step(sample, p, i as int);
            assert(sample[i as int] == byte);
        }
        if byte == 0x0a || byte == 0x0d || byte == 0x09 || (32 <= byte && byte <= 126) || byte
            >= 128 {
            text_chars += 1;
        }
        i += 1;
    }
    proof {
        assert(sample.take(sample.len() as int) =~= sample);
    }
    text_chars * 100 > sample_size * 85
}

/// The type that the first bytes of `data` show: that of a known file
/// signature; failing that, plain text if the data looks like text; generic
/// binary otherwise, and for data of less than twelve bytes.
pub open spec fn detected_mime(d: Seq<u8>) -> Seq<char> {
    if d.len() < 12 {
        "application/octet-stream"@
    } else if d[0] == 0xff && d[1] == 0xd8 && d[2] == 0xff {
        "image/jpeg"@
    } else if d[0] == 0x89 && d[1] == 0x50 && d[2] == 0x4e && d[3] == 0x47 {
        "image/png"@
    } else if d[0] == 0x47 && d[1] == 0x49 && d[2] == 0x46 && d[3] == 0x38 {
        "image/gif"@
    } else if d[0] == 0x25 && d[1] == 0x50 && d[2] == 0x44 && d[3] == 0x46 {
        "application/pdf"@
    } else if d[0] == 0x50 && d[1] == 0x4b && ((d[2] == 0x03 && d[3] == 0x04) || (d[2] == 0x05
        && d[3] == 0x06) || (d[2] == 0x07 && d[3] == 0x08)) {
        "application/zip"@
    } else if d[0] == 0x00 && d[1] == 0x00 && d[2] == 0x00 && d[4] == 0x66 && d[5] == 0x74 && d[6]
        == 0x79 && d[7] == 0x70 {
        "video/mp4"@
    } else if d[0] == 0x1a && d[1] == 0x45 && d[2] == 0xdf && d[3] == 0xa3 {
        "video/webm"@
    } else if d[0] == 0x49 && d[1] == 0x44 && d[2] == 0x33 {
        "audio/mpeg"@
    } else if d[0] == 0xff && (d[1] == 0xfb || d[1] == 0xf3 || d[1] == 0xf2) {
        "audio/mpeg"@
    } else if d[0] == 0x52 && d[1] == 0x49 && d[2] == 0x46 && d[3] == 0x46 && d[8] == 0x57 && d[9]
        == 0x41 && d[10] == 0x56 && d[11] == 0x45 {
        "audio/wav"@
    } else if likely_text(d) {
        "text/plain"@
    } else {
        "application/octet-stream"@
    }
}

/// The type that the first bytes of `data` show.
pub fn detect_mime_from_bytes(data: &[u8]) -> (r: String)
    ensures
        r@ == detected_mime(data@),
{
    if data.len() < 12 {
        return "application/octet-stream".to_string();
    }
    let d = data;
    if d[0] == 0xff && d[1] == 0xd8 && d[2] == 0xff {
        "image/jpeg".to_string()
    } else if d[0] == 0x89 && d[1] == 0x50 && d[2] == 0x4e && d[3] == 0x47 {
        "image/png".to_string()
    } else if d[0] == 0x47 && d[1] == 0x49 && d[2] == 0x46 && d[3] == 0x38 {
        "image/gif".to_string()
    } else if d[0] == 0x25 && d[1] == 0x50 && d[2] == 0x44 && d[3] == 0x46 {
        "application/pdf".to_string()
    } else if d[0] == 0x50 && d[1] == 0x4b && ((d[2] == 0x03 && d[3] == 0x04) || (d[2] == 0x05
        && d[3] == 0x06) || (d[2] == 0x07 && d[3] == 0x08)) {
        "application/zip".to_string()
    } else if d[0] == 0x00 && d[1] == 0x00 && d[2] == 0x00 && d[4] == 0x66 && d[5] == 0x74 && d[6]
        == 0x79 && d[7] == 0x70 {
        "video/mp4".to_string()
    } else if d[0] == 0x1a && d[1] == 0x45 && d[2] == 0xdf && d[3] == 0xa3 {
        "video/webm".to_string()
    } else if d[0] == 0x49 && d[1] == 0x44 && d[2] == 0x33 {
        "audio/mpeg".to_string()
    } else if d[0] == 0xff && (d[1] == 0xfb || d[1] == 0xf3 || d[1] == 0xf2) {
        "audio/mpeg".to_string()
    } else if d[0] == 0x52 && d[1] == 0x49 && d[2] == 0x46 && d[3] == 0x46 && d[8] == 0x57 && d[9]
        == 0x41 && d[10] == 0x56 && d[11] == 0x45 {
        "audio/wav".to_string()
    } else if is_likely_text(data) {
        "text/plain".to_string()
    } else {
        "application/octet-stream".to_string()
    }
}

/// The type under which a file is stored: the type that its bytes show, or,
/// where they show none, the type that the uploader claims.
pub open spec fn final_mime(data: Seq<u8>, claimed: Seq<char>) -> Seq<char> {
    if mime_base(detected_mime(data)) != GENERIC_BINARY@ {
        mime_base(detected_mime(data))
    } else {
        mime_base(claimed)
    }
}

/// Why a file is refused, if it is: for its size, or for its type.
pub open spec fn file_rejection(data: Seq<u8>, claimed: Seq<char>) -> Option<Rejection> {
    if size_rejection(data.len()) is Some {
        size_rejection(data.len())
    } else {
        mime_rejection(final_mime(data, claimed))
    }
}

/// Validates an uploaded file and settles the type under which it is
/// stored.
pub fn validate_file(data: &[u8], claimed_mime: &str) -> (res: AppResult<FileValidationResult>)
    ensures
        match file_rejection(data@, claimed_mime@) {
            Some(r) => rejected_as(res, r),
            None => res matches Ok(v) && v.is_valid && v.detected_mime@ == final_mime(
                data@,
                claimed_mime@,
            ) && v.error is None,
        },
{
    match validate_file_size(data) {
        Err(e) => {
            return Err(e);
        },
        Ok(_) => {},
    }
    let detected_mime = detect_mime_from_bytes(data);
    let claimed_base = base_type(claimed_mime);
    let detected_base = base_type(detected_mime.as_str());
    let final_mime = if !str_eq(detected_base.as_str(), GENERIC_BINARY) {
        detected_base
    } else {
        claimed_base
    };
    match validate_mime_type(final_mime.as_str()) {
        Err(e) => {
            return Err(e);
        },
        Ok(_) => {},
    }
    Ok(FileValidationResult { is_valid: true, detected_mime: final_mime, error: None })
}

} // verus!
