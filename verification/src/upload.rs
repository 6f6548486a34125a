//! Upload integrity checks.
//!
//! A binary payload submitted via multipart upload must be accompanied by a
//! SHA-256 content digest over the exact bytes uploaded and a content type
//! derived from the filename's extension, restricted to a small image
//! allow-list; payloads over a fixed size ceiling are rejected before any
//! network call is attempted. This module computes the digest, the content
//! type and the exact metadata JSON the transport signs and sends.

use crate::canonical::txt;
use crate::crypto::sha256;
use crate::crypto::sha256_digest;
use crate::errors::UploadError;
use crate::platform_certificate::bytes_eq;
use vstd::prelude::*;
use vstd::string::StringSliceAdditionalSpecFns;

verus! {

/// The fixed ceiling on upload payload size, in bytes.
pub const MAX_UPLOAD_SIZE: usize = 2 * 1024 * 1024;

/// ASCII-lowercases every byte of a sequence.
pub open spec fn ascii_lower(b: Seq<u8>) -> Seq<u8> {
    b.map_values(
        |x: u8|
            if 65 <= x <= 90 {
                (x + 32) as u8
            } else {
                x
            },
    )
}

/// Whether an extension, compared case-insensitively, is in the image
/// allow-list: jpg, jpeg, png, bmp.
pub open spec fn is_supported_image_spec(ext: Seq<u8>) -> bool {
    let l = ascii_lower(ext);
    l == txt("jpg"@) || l == txt("jpeg"@) || l == txt("png"@) || l == txt("bmp"@)
}

/// The filename's extension: the bytes after the last dot, or the whole
/// name when it has no dot.
pub open spec fn extension_of(name: Seq<u8>) -> Seq<u8>
    decreases name.len(),
{
    if name.len() == 0 {
        Seq::empty()
    } else if name.last() == 46u8 {
        Seq::empty()
    } else {
        extension_of(name.drop_last()) + seq![name.last()]
    }
}

/// The content type an allow-listed extension selects.
pub open spec fn mime_for(ext: Seq<u8>) -> Seq<char> {
    let l = ascii_lower(ext);
    if l == txt("png"@) {
        "image/png"@
    } else if l == txt("bmp"@) {
        "image/bmp"@
    } else {
        "image/jpeg"@
    }
}

/// How one byte of a JSON string is written: the named short escapes for
/// backspace, tab, newline, form feed, carriage return, quote and
/// backslash; `\u00` and two lowercase hex digits for any other control
/// byte; the byte itself otherwise.
pub open spec fn json_escape_byte(b: u8) -> Seq<u8> {
    if b == 34 {
        seq![92u8, 34u8]
    } else if b == 92 {
        seq![92u8, 92u8]
    } else if b == 8 {
        seq![92u8, 98u8]
    } else if b == 9 {
        seq![92u8, 116u8]
    } else if b == 10 {
        seq![92u8, 110u8]
    } else if b == 12 {
        seq![92u8, 102u8]
    } else if b == 13 {
        seq![92u8, 114u8]
    } else if b < 32 {
        seq![92u8, 117u8, 48u8, 48u8, hex_digit(b / 16), hex_digit(b % 16)]
    } else {
        seq![b]
    }
}

/// A byte sequence written as the contents of a JSON string.
pub open spec fn json_escape(s: Seq<u8>) -> Seq<u8>
    decreases s.len(),
{
    if s.len() == 0 {
        Seq::empty()
    } else {
        json_escape(s.drop_last()) + json_escape_byte(s.last())
    }
}

/// The metadata JSON that accompanies an upload: the filename (JSON-escaped)
/// and the lowercase hex SHA-256 digest of the payload, in a fixed
/// two-field object.
pub open spec fn upload_meta(filename: Seq<u8>, digest_hex: Seq<u8>) -> Seq<u8> {
    txt("{\"filename\":\""@) + json_escape(filename) + txt("\",\"sha256\":\""@) + digest_hex + txt(
        "\"}"@,
    )
}

/// The lowercase hex digit for a value below 16.
pub open spec fn hex_digit(d: u8) -> u8 {
    if d < 10 {
        (48 + d) as u8
    } else {
        (87 + d) as u8
    }
}

/// The lowercase hex encoding of a byte sequence, two digits per byte.
pub open spec fn hex_lower(b: Seq<u8>) -> Seq<u8>
    decreases b.len(),
{
    if b.len() == 0 {
        Seq::empty()
    } else {
        hex_lower(b.drop_last()) + seq![hex_digit(b.last() / 16), hex_digit(b.last() % 16)]
    }
}

/// Encodes bytes as lowercase hex.
pub fn to_hex_lower(data: &[u8]) -> (r: Vec<u8>)
    ensures
        r@ == hex_lower(data@),
{
    let n = data.len();
    let mut out: Vec<u8> = Vec::new();
    proof {
        assert(data@.subrange(0, 0) =~= Seq::<u8>::empty());
    }
    for i in 0..n
        invariant
            n == data@.len(),
            out@ == hex_lower(data@.subrange(0, i as int)),
    {
        let b = data[i];
        let hi = b / 16;
        let lo = b % 16;
        out.push(if hi < 10 {
            48 + hi
        } else {
            87 + hi
        });
        out.push(if lo < 10 {
            48 + lo
        } else {
            87 + lo
        });
        proof {
            let pre = data@.subrange(0, i as int);
            let cur = data@.subrange(0, i + 1);
            assert(cur.drop_last() =~= pre);
            assert(cur.last() == b);
            assert(out@ =~= hex_lower(pre) + seq![hex_digit(b / 16), hex_digit(b % 16)]);
        }
    }
    proof {
        assert(data@.subrange(0, n as int) =~= data@);
    }
    out
}

/// ASCII-lowercases a byte slice.
fn lower_bytes(data: &[u8]) -> (r: Vec<u8>)
    ensures
        r@ == ascii_lower(data@),
{
    let n = data.len();
    let mut out: Vec<u8> = Vec::new();
    for i in 0..n
        invariant
            n == data@.len(),
            out@.len() == i,
            forall|j: int| 0 <= j < i ==> out@[j] == ascii_lower(data@)[j],
    {
        let b = data[i];
        if 65 <= b && b <= 90 {
            out.push(b + 32);
        } else {
            out.push(b);
        }
    }
    proof {
        assert(out@ =~= ascii_lower(data@));
    }
    out
}

/// Whether a byte slice, as a filename extension, is in the image
/// allow-list, compared case-insensitively.
fn is_supported_image_bytes(ext: &[u8]) -> (r: bool)
    ensures
        r == is_supported_image_spec(ext@),
{
    let lowered = lower_bytes(ext);
    let l = lowered.as_slice();
    bytes_eq(l, "jpg".as_bytes()) || bytes_eq(l, "jpeg".as_bytes()) || bytes_eq(
        l,
        "png".as_bytes(),
    ) || bytes_eq(l, "bmp".as_bytes())
}

/// Whether a filename extension is a supported image format: jpg, jpeg,
/// png or bmp, in any case.
pub fn is_supported_image(extension: &str) -> (r: bool)
    ensures
        r == is_supported_image_spec(extension.spec_bytes()),
{
    is_supported_image_bytes(extension.as_bytes())
}

/// A suffix that starts right after a dot (or at the very start) and
/// contains no dot is exactly what `extension_of` denotes.
proof fn lemma_extension_at(name: Seq<u8>, p: int)
    requires
        0 <= p <= name.len(),
        p == 0 || name[p - 1] == 46u8,
        forall|j: int| p <= j < name.len() ==> name[j] != 46u8,
    ensures
        extension_of(name) == name.subrange(p, name.len() as int),
    decreases name.len() - p,
{
    if p == name.len() {
        if p == 0 {
            assert(name.subrange(0, 0) =~= Seq::<u8>::empty());
            assert(extension_of(name) =~= Seq::<u8>::empty());
        } else {
            assert(name.last() == 46u8);
            assert(name.subrange(p, name.len() as int) =~= Seq::<u8>::empty());
        }
    } else {
        assert(name.last() != 46u8);
        lemma_extension_at_helper(name, p);
    }
}

/// Induction step for `lemma_extension_at`, over the name's length.
proof fn lemma_extension_at_helper(name: Seq<u8>, p: int)
    requires
        0 <= p < name.len(),
        p == 0 || name[p - 1] == 46u8,
        forall|j: int| p <= j < name.len() ==> name[j] != 46u8,
        name.last() != 46u8,
    ensures
        extension_of(name) == name.subrange(p, name.len() as int),
    decreases name.len(),
{
    let shorter = name.drop_last();
    if p == shorter.len() {
        if p == 0 {
            assert(shorter.len() == 0);
            assert(extension_of(shorter) =~= Seq::<u8>::empty());
        } else {
            assert(shorter.last() == name[p - 1]);
        }
        assert(extension_of(name) =~= name.subrange(p, name.len() as int));
    } else {
        if shorter.last() == 46u8 {
            assert(name[shorter.len() - 1] == 46u8);
            assert(false);
        }
        lemma_extension_at_helper(shorter, p);
        assert(shorter.subrange(p, shorter.len() as int) =~= name.subrange(
            p,
            name.len() - 1,
        ));
        assert(extension_of(name) =~= name.subrange(p, name.len() as int));
    }
}

/// The filename's extension: the bytes after the last dot, or the whole
/// name when it has no dot.
fn extension_bytes(name: &[u8]) -> (r: Vec<u8>)
    ensures
        r@ == extension_of(name@),
{
    let n = name.len();
    let mut start: usize = 0;
    for i in 0..n
        invariant
            n == name@.len(),
            0 <= start <= i,
            start == 0 || name@[start - 1] == 46u8,
            forall|j: int| start <= j < i ==> name@[j] != 46u8,
    {
        if name[i] == 46 {
            start = i + 1;
        }
    }
    let mut out: Vec<u8> = Vec::new();
    for k in start..n
        invariant
            n == name@.len(),
            start <= n,
            out@ == name@.subrange(start as int, k as int),
    {
        out.push(name[k]);
        proof {
            assert(out@ =~= name@.subrange(start as int, k + 1));
        }
    }
    proof {
        lemma_extension_at(name@, start as int);
    }
    out
}

/// The content type for an allow-listed extension.
fn mime_for_extension(ext: &[u8]) -> (r: &'static str)
    ensures
        r@ == mime_for(ext@),
{
    let lowered = lower_bytes(ext);
    let l = lowered.as_slice();
    if bytes_eq(l, "png".as_bytes()) {
        "image/png"
    } else if bytes_eq(l, "bmp".as_bytes()) {
        "image/bmp"
    } else {
        "image/jpeg"
    }
}

/// Writes a byte slice as the contents of a JSON string.
fn json_escape_bytes(data: &[u8]) -> (r: Vec<u8>)
    ensures
        r@ == json_escape(data@),
{
    let n = data.len();
    let mut out: Vec<u8> = Vec::new();
    proof {
        assert(data@.subrange(0, 0) =~= Seq::<u8>::empty());
    }
    for i in 0..n
        invariant
            n == data@.len(),
            out@ == json_escape(data@.subrange(0, i as int)),
    {
        let b = data[i];
        if b == 34 {
            out.push(92);
            out.push(34);
        } else if b == 92 {
            out.push(92);
            out.push(92);
        } else if b == 8 {
            out.push(92);
            out.push(98);
        } else if b == 9 {
            out.push(92);
            out.push(116);
        } else if b == 10 {
            out.push(92);
            out.push(110);
        } else if b == 12 {
            out.push(92);
            out.push(102);
        } else if b == 13 {
            out.push(92);
            out.push(114);
        } else if b < 32 {
            let hi = b / 16;
            let lo = b % 16;
            out.push(92);
            out.push(117);
            out.push(48);
            out.push(48);
            out.push(if hi < 10 {
                48 + hi
            } else {
                87 + hi
            });
            out.push(if lo < 10 {
                48 + lo
            } else {
                87 + lo
            });
        } else {
            out.push(b);
        }
        proof {
            let pre = data@.subrange(0, i as int);
            let cur = data@.subrange(0, i + 1);
            assert(cur.drop_last() =~= pre);
            assert(cur.last() == b);
            assert(out@ =~= json_escape(pre) + json_escape_byte(b));
        }
    }
    proof {
        assert(data@.subrange(0, n as int) =~= data@);
    }
    out
}

/// Everything the transport needs to submit one upload: the payload digest,
/// the content type, and the metadata JSON that is signed alongside.
#[derive(Debug, Clone, PartialEq, Eq)]
pub struct UploadPlan {
    /// Lowercase hex SHA-256 digest of the payload.
    pub digest_hex: Vec<u8>,
    /// The content type derived from the filename.
    pub mime: &'static str,
    /// The exact metadata JSON bytes.
    pub meta_json: Vec<u8>,
}

/// Checks an upload payload and filename and computes the digest, content
/// type and metadata, rejecting oversize payloads before anything else —
/// and in particular before any network call.
pub fn prepare_upload(image: &Vec<u8>, filename: &str) -> (r: Result<UploadPlan, UploadError>)
    ensures
        r == Err::<UploadPlan, UploadError>(UploadError::TooLarge) <==> image@.len()
            > MAX_UPLOAD_SIZE,
        r == Err::<UploadPlan, UploadError>(UploadError::UnsupportedFormat) <==> image@.len()
            <= MAX_UPLOAD_SIZE && !is_supported_image_spec(extension_of(filename.spec_bytes())),
        r is Ok <==> image@.len() <= MAX_UPLOAD_SIZE && is_supported_image_spec(
            extension_of(filename.spec_bytes()),
        ),
        r matches Ok(plan) ==> {
            &&& plan.digest_hex@ == hex_lower(sha256_digest(image@))
            &&& plan.mime@ == mime_for(extension_of(filename.spec_bytes()))
            &&& plan.meta_json@ == upload_meta(
                filename.spec_bytes(),
                hex_lower(sha256_digest(image@)),
            )
        },
{
    if image.len() > MAX_UPLOAD_SIZE {
        return Err(UploadError::TooLarge);
    }
    let name_bytes = filename.as_bytes();
    let ext = extension_bytes(name_bytes);
    if !is_supported_image_bytes(ext.as_slice()) {
        return Err(UploadError::UnsupportedFormat);
    }
    let digest = sha256(image.as_slice());
    let digest_hex = to_hex_lower(digest.as_slice());
    let mime = mime_for_extension(ext.as_slice());
    let escaped_name = json_escape_bytes(name_bytes);
    let mut meta: Vec<u8> = Vec::new();
    meta.extend_from_slice("{\"filename\":\"".as_bytes());
    meta.extend_from_slice(escaped_name.as_slice());
    meta.extend_from_slice("\",\"sha256\":\"".as_bytes());
    meta.extend_from_slice(digest_hex.as_slice());
    meta.extend_from_slice("\"}".as_bytes());
    proof {
        assert(meta@ =~= upload_meta(filename.spec_bytes(), hex_lower(sha256_digest(image@))));
    }
    Ok(UploadPlan { digest_hex, mime, meta_json: meta })
}

} // verus!
