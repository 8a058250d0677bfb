//! Imported images: which files are accepted, how they are identified by the SHA-256
//! digest of their bytes, and how a stored file is checked against its digest.

use vstd::prelude::*;

use crate::error::{LibraryError, LibraryResult};
use crate::models::concepts::MediaSummary;
use crate::text::push_char;

verus! {

broadcast use vstd::seq_lib::group_seq_properties;

/// An image has at most this many bytes (20 MiB).
pub const MAXIMUM_IMAGE_BYTES: usize = 20_971_520;

/// The largest image size, as reported to the learner, in megabytes.
pub const MAXIMUM_IMAGE_MEGABYTES: usize = 20;

/// An image has at most this many pixels.
pub const MAXIMUM_IMAGE_PIXELS: u64 = 100_000_000;

/// The image formats a file can be recognized as.
#[derive(Clone, Copy, Debug, PartialEq, Eq, Structural)]
pub enum ImageKind {
    Gif,
    Jpeg,
    Png,
    WebP,
    /// A format the library does not accept.
    Other,
}

/// The bytes begin with `prefix`.
pub open spec fn starts_with_bytes(bytes: Seq<u8>, prefix: Seq<u8>) -> bool {
    prefix.len() <= bytes.len() && bytes.take(prefix.len() as int) == prefix
}

/// The accepted format whose signature opens the bytes, if any: the PNG signature, the
/// JPEG start-of-image marker `FF D8 FF`, `GIF89a` or `GIF87a`, or `RIFF`, four bytes of
/// any value and `WEBP`.
pub open spec fn accepted_format(bytes: Seq<u8>) -> Option<ImageKind> {
    if starts_with_bytes(bytes, seq![0x89u8, 0x50u8, 0x4eu8, 0x47u8, 0x0du8, 0x0au8, 0x1au8, 0x0au8]) {
        Some(ImageKind::Png)
    } else if starts_with_bytes(bytes, seq![0xffu8, 0xd8u8, 0xffu8]) {
        Some(ImageKind::Jpeg)
    } else if starts_with_bytes(bytes, seq![0x47u8, 0x49u8, 0x46u8, 0x38u8, 0x39u8, 0x61u8])
        || starts_with_bytes(bytes, seq![0x47u8, 0x49u8, 0x46u8, 0x38u8, 0x37u8, 0x61u8]) {
        Some(ImageKind::Gif)
    } else if bytes.len() >= 12 && starts_with_bytes(bytes, seq![0x52u8, 0x49u8, 0x46u8, 0x46u8])
        && bytes.subrange(8, 12) == seq![0x57u8, 0x45u8, 0x42u8, 0x50u8] {
        Some(ImageKind::WebP)
    } else {
        None
    }
}

/// The width and height that the `image` crate's decoder for `kind` reads from the bytes,
/// if it can.
pub uninterp spec fn decoded_dimensions(bytes: Seq<u8>, kind: ImageKind) -> Option<(u32, u32)>;

/// The SHA-256 digest of the bytes.
pub uninterp spec fn sha256(bytes: Seq<u8>) -> Seq<u8>;

/// Wraps `image::guess_format`: the format it recognizes from the leading bytes, `None`
/// when it recognizes none, and `Other` for a format that is not GIF, JPEG, PNG or WebP.
/// The first entries of its signature table are those of [`accepted_format`], and no later
/// entry names one of these four formats; which other formats it recognizes is not
/// restated here.
#[verifier::external_body]
fn guess_image_format(bytes: &[u8]) -> (r: Option<ImageKind>)
    ensures
        accepted_format(bytes@) matches Some(kind) ==> r == Some(kind),
        accepted_format(bytes@) is None ==> r is None || r == Some(ImageKind::Other),
{
    match image::guess_format(bytes) {
        Ok(image::ImageFormat::Gif) => Some(ImageKind::Gif),
        Ok(image::ImageFormat::Jpeg) => Some(ImageKind::Jpeg),
        Ok(image::ImageFormat::Png) => Some(ImageKind::Png),
        Ok(image::ImageFormat::WebP) => Some(ImageKind::WebP),
        Ok(_) => Some(ImageKind::Other),
        Err(_) => None,
    }
}

/// Wraps `image::ImageReader::with_format(..).into_dimensions()` for an accepted format:
/// the dimensions its decoder reads, `None` when it fails. How each decoder reads them is
/// not restated here.
#[verifier::external_body]
fn read_image_dimensions(bytes: &[u8], kind: ImageKind) -> (r: Option<(u32, u32)>)
    requires
        kind != ImageKind::Other,
    ensures
        r == decoded_dimensions(bytes@, kind),
{
    let format = match kind {
        ImageKind::Gif => image::ImageFormat::Gif,
        ImageKind::Jpeg => image::ImageFormat::Jpeg,
        ImageKind::Png => image::ImageFormat::Png,
        _ => image::ImageFormat::WebP,
    };
    image::ImageReader::with_format(std::io::Cursor::new(bytes), format).into_dimensions().ok()
}

/// Wraps `sha2::Sha256::digest`: the digest of the bytes, which is 32 bytes long.
#[verifier::external_body]
fn sha256_digest(bytes: &[u8]) -> (r: Vec<u8>)
    ensures
        r@ == sha256(bytes@),
        r@.len() == 32,
{
    <sha2::Sha256 as sha2::Digest>::digest(bytes).to_vec()
}

/// The lower-case hexadecimal digits.
pub open spec fn hex_digits() -> Seq<char> {
    seq!['0', '1', '2', '3', '4', '5', '6', '7', '8', '9', 'a', 'b', 'c', 'd', 'e', 'f']
}

/// Each byte as two lower-case hexadecimal digits, high digit first.
pub open spec fn hex_text(bytes: Seq<u8>) -> Seq<char>
    decreases bytes.len(),
{
    if bytes.len() == 0 {
        Seq::empty()
    } else {
        hex_text(bytes.drop_last()) + seq![
            hex_digits()[(bytes.last() / 16) as int],
            hex_digits()[(bytes.last() % 16) as int],
        ]
    }
}

/// The digest that identifies a file: its SHA-256 digest in lower-case hexadecimal.
pub open spec fn media_digest(bytes: Seq<u8>) -> Seq<char> {
    hex_text(sha256(bytes))
}

/// The bytes in lower-case hexadecimal.
fn hex_encode(bytes: &Vec<u8>) -> (r: String)
    ensures
        r@ == hex_text(bytes@),
{
    let digits = vec!['0', '1', '2', '3', '4', '5', '6', '7', '8', '9', 'a', 'b', 'c', 'd', 'e', 'f'];
    assert(digits@ =~= hex_digits());
    let mut out = String::new();
    let mut i: usize = 0;
    while i < bytes.len()
        invariant
            digits@ == hex_digits(),
            i <= bytes.len(),
            out@ == hex_text(bytes@.take(i as int)),
        decreases bytes.len() - i,
    {
        assert(bytes@.take(i + 1).drop_last() =~= bytes@.take(i as int));
        let b = bytes[i];
        push_char(&mut out, digits[(b / 16) as usize]);
        push_char(&mut out, digits[(b % 16) as usize]);
        i = i + 1;
    }
    assert(bytes@.take(i as int) =~= bytes@);
    out
}

/// The digest that identifies the file made of `bytes` (see [`media_digest`]).
pub fn digest(bytes: &[u8]) -> (r: String)
    ensures
        r@ == media_digest(bytes@),
{
    let hash = sha256_digest(bytes);
    hex_encode(&hash)
}

/// What an accepted image is stored as.
#[derive(Clone, Debug, PartialEq, Eq)]
pub struct ImageMetadata {
    pub digest: String,
    pub extension: &'static str,
    pub height: i64,
    pub mime_type: &'static str,
    pub width: i64,
    pub byte_size: i64,
}

/// The MIME type and file extension of an accepted format.
pub open spec fn format_names(kind: ImageKind) -> (Seq<char>, Seq<char>) {
    match kind {
        ImageKind::Gif => ("image/gif"@, "gif"@),
        ImageKind::Jpeg => ("image/jpeg"@, "jpg"@),
        ImageKind::Png => ("image/png"@, "png"@),
        _ => ("image/webp"@, "webp"@),
    }
}

/// Checks an image file: between one byte and 20 MiB; GIF, JPEG, PNG or WebP; readable
/// dimensions, neither zero, of at most 100 million pixels. An accepted image is
/// identified by the digest of its bytes.
pub fn validate_image(bytes: &[u8]) -> (r: LibraryResult<ImageMetadata>)
    ensures
        bytes@.len() == 0 || bytes@.len() > MAXIMUM_IMAGE_BYTES ==> (r matches Err(e)
            && e matches LibraryError::ImageTooLarge { maximum_megabytes }
            && maximum_megabytes == MAXIMUM_IMAGE_MEGABYTES),
        0 < bytes@.len() <= MAXIMUM_IMAGE_BYTES ==> match accepted_format(bytes@) {
            None => r matches Err(e) && e is UnsupportedImage,
            Some(kind) => match decoded_dimensions(bytes@, kind) {
                None => r matches Err(e) && e is UnsupportedImage,
                Some((w, h)) => if w == 0 || h == 0 || w * h > MAXIMUM_IMAGE_PIXELS {
                    r matches Err(e) && e is ImageDimensionsTooLarge
                } else {
                    r matches Ok(m) && m.digest@ == media_digest(bytes@) && m.mime_type@ == format_names(
                        kind,
                    ).0 && m.extension@ == format_names(kind).1 && m.width == w && m.height == h
                        && m.byte_size == bytes@.len()
                },
            },
        },
{
    if bytes.len() == 0 || bytes.len() > MAXIMUM_IMAGE_BYTES {
        return Err(LibraryError::ImageTooLarge { maximum_megabytes: MAXIMUM_IMAGE_MEGABYTES });
    }
    let kind = match guess_image_format(bytes) {
        Some(k) => k,
        None => {
            return Err(LibraryError::UnsupportedImage);
        },
    };
    let (mime_type, extension) = match kind {
        ImageKind::Gif => ("image/gif", "gif"),
        ImageKind::Jpeg => ("image/jpeg", "jpg"),
        ImageKind::Png => ("image/png", "png"),
        ImageKind::WebP => ("image/webp", "webp"),
        ImageKind::Other => {
            return Err(LibraryError::UnsupportedImage);
        },
    };
    let (width, height) = match read_image_dimensions(bytes, kind) {
        Some(d) => d,
        None => {
            return Err(LibraryError::UnsupportedImage);
        },
    };
    if width == 0 || height == 0 {
        return Err(LibraryError::ImageDimensionsTooLarge);
    }
    assert((width as u64) * (height as u64) <= 0xffff_ffff * 0xffff_ffff) by (nonlinear_arith)
        requires
            width <= 0xffff_ffff,
            height <= 0xffff_ffff,
    ;
    let pixels: u64 = (width as u64) * (height as u64);
    if pixels > MAXIMUM_IMAGE_PIXELS {
        return Err(LibraryError::ImageDimensionsTooLarge);
    }
    Ok(
        ImageMetadata {
            digest: digest(bytes),
            extension,
            height: height as i64,
            mime_type,
            width: width as i64,
            byte_size: bytes.len() as i64,
        },
    )
}

/// A stored file must still have the digest it was stored under.
pub fn check_media_integrity(bytes: &[u8], expected_digest: &str) -> (r: LibraryResult<()>)
    ensures
        r is Ok <==> media_digest(bytes@) == expected_digest@,
        r matches Err(e) ==> (e matches LibraryError::MediaIntegrity { expected_digest: d } && d@
            == expected_digest@),
{
    let actual = digest(bytes);
    if actual == expected_digest.to_owned() {
        Ok(())
    } else {
        Err(LibraryError::MediaIntegrity { expected_digest: expected_digest.to_owned() })
    }
}

/// A file already stored under a digest must hold exactly the bytes being imported.
pub fn check_existing_file(existing: &[u8], expected: &[u8], expected_digest: &str) -> (r: LibraryResult<()>)
    ensures
        r is Ok <==> existing@ == expected@,
        r matches Err(e) ==> (e matches LibraryError::MediaIntegrity { expected_digest: d } && d@
            == expected_digest@),
{
    if existing.len() != expected.len() {
        return Err(LibraryError::MediaIntegrity { expected_digest: expected_digest.to_owned() });
    }
    let mut i: usize = 0;
    while i < existing.len()
        invariant
            existing@.len() == expected@.len(),
            i <= existing@.len(),
            forall|j: int| 0 <= j < i ==> existing@[j] == expected@[j],
        decreases existing@.len() - i,
    {
        if existing[i] != expected[i] {
            return Err(LibraryError::MediaIntegrity { expected_digest: expected_digest.to_owned() });
        }
        i = i + 1;
    }
    assert(existing@ =~= expected@);
    Ok(())
}

/// The name of the file that stores the media with this digest and extension.
pub fn media_file_name(digest: &str, extension: &str) -> (r: String)
    ensures
        r@ == digest@ + seq!['.'] + extension@,
{
    let mut out = digest.to_owned();
    push_char(&mut out, '.');
    let chars = crate::text::chars_of(extension);
    let ghost start = out@;
    let mut i: usize = 0;
    while i < chars.len()
        invariant
            chars@ == extension@,
            i <= chars.len(),
            out@ == start + chars@.take(i as int),
        decreases chars.len() - i,
    {
        push_char(&mut out, chars[i]);
        assert(chars@.take(i + 1) =~= chars@.take(i as int).push(chars@[i as int]));
        i = i + 1;
    }
    assert(chars@.take(i as int) =~= chars@);
    out
}

/// A stored media record.
#[derive(Clone, Debug, PartialEq, Eq)]
pub struct MediaRecord {
    pub id: String,
    pub digest: String,
    pub extension: String,
    pub mime_type: String,
    pub byte_size: i64,
    pub width: i64,
    pub height: i64,
}

impl MediaRecord {
    /// What the library shows of a media record.
    pub fn summary(&self) -> (r: MediaSummary)
        ensures
            r.id == self.id,
            r.mime_type == self.mime_type,
            r.byte_size == self.byte_size,
            r.width == self.width,
            r.height == self.height,
    {
        MediaSummary {
            id: self.id.clone(),
            mime_type: self.mime_type.clone(),
            byte_size: self.byte_size,
            width: self.width,
            height: self.height,
        }
    }
}

/// The digest of a file is 64 lower-case hexadecimal characters.
pub proof fn lemma_media_digest_is_64_hex_characters(bytes: Seq<u8>)
    requires
        sha256(bytes).len() == 32,
    ensures
        media_digest(bytes).len() == 64,
        forall|i: int| 0 <= i < 64 ==> hex_digits().contains(#[trigger] media_digest(bytes)[i]),
{
    lemma_hex_text_shape(sha256(bytes));
}

proof fn lemma_hex_text_shape(bytes: Seq<u8>)
    ensures
        hex_text(bytes).len() == 2 * bytes.len(),
        forall|i: int| 0 <= i < hex_text(bytes).len() ==> hex_digits().contains(#[trigger] hex_text(bytes)[i]),
    decreases bytes.len(),
{
    if bytes.len() > 0 {
        lemma_hex_text_shape(bytes.drop_last());
        let b = bytes.last();
        let front = hex_text(bytes.drop_last());
        let hi = hex_digits()[(b / 16) as int];
        let lo = hex_digits()[(b % 16) as int];
        assert(hex_digits().contains(hi));
        assert(hex_digits().contains(lo));
        assert forall|i: int| 0 <= i < hex_text(bytes).len() implies hex_digits().contains(
            #[trigger] hex_text(bytes)[i],
        ) by {
            if i < front.len() {
                assert(hex_text(bytes)[i] == front[i]);
            } else if i == front.len() {
                assert(hex_text(bytes)[i] == hi);
            } else {
                assert(hex_text(bytes)[i] == lo);
            }
        }
    }
}

} // verus!
