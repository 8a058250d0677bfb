use std::io::Cursor;

use image::{DynamicImage, ImageFormat};
use twill::error::LibraryError;
use twill::media::{
    check_existing_file, check_media_integrity, digest, media_file_name, validate_image,
    MediaRecord,
};

fn png_bytes() -> Vec<u8> {
    let mut bytes = Cursor::new(Vec::new());

    DynamicImage::new_rgba8(2, 3)
        .write_to(&mut bytes, ImageFormat::Png)
        .unwrap();

    bytes.into_inner()
}

#[test]
fn unsupported_and_oversized_files_are_rejected() {
    assert!(matches!(
        validate_image(b"not an image"),
        Err(LibraryError::UnsupportedImage)
    ));
    assert!(matches!(
        validate_image(&vec![0; 20 * 1024 * 1024 + 1]),
        Err(LibraryError::ImageTooLarge { .. })
    ));
    assert_eq!(
        validate_image(&[]),
        Err(LibraryError::ImageTooLarge { maximum_megabytes: 20 })
    );
}

#[test]
fn accepted_images_are_described_by_format_size_and_digest() {
    let bytes = png_bytes();
    let metadata = validate_image(&bytes).unwrap();

    assert_eq!(metadata.mime_type, "image/png");
    assert_eq!(metadata.extension, "png");
    assert_eq!((metadata.width, metadata.height), (2, 3));
    assert_eq!(metadata.byte_size, bytes.len() as i64);
    assert_eq!(metadata.digest, digest(&bytes));
}

#[test]
fn a_recognized_but_unreadable_image_is_unsupported() {
    let mut bytes = png_bytes();
    bytes.truncate(12);

    assert_eq!(validate_image(&bytes), Err(LibraryError::UnsupportedImage));
}

#[test]
fn digests_are_lowercase_hexadecimal_sha256() {
    assert_eq!(
        digest(b"abc"),
        "ba7816bf8f01cfea414140de5dae2223b00361a396177a9cb410ff61f20015ad"
    );
    assert_eq!(
        digest(b""),
        "e3b0c44298fc1c149afbf4c8996fb92427ae41e4649b934ca495991b7852b855"
    );
    assert_eq!(digest(&png_bytes()).len(), 64);
}

#[test]
fn corrupt_managed_media_reports_the_expected_digest() {
    let bytes = png_bytes();
    let expected_digest = digest(&bytes);

    assert_eq!(check_media_integrity(&bytes, &expected_digest), Ok(()));
    assert!(matches!(
        check_media_integrity(b"corrupt image data", &expected_digest),
        Err(LibraryError::MediaIntegrity {
            expected_digest: actual_digest,
        }) if actual_digest == expected_digest
    ));
}

#[test]
fn an_existing_file_must_hold_the_imported_bytes() {
    let bytes = png_bytes();
    let expected_digest = digest(&bytes);

    assert_eq!(check_existing_file(&bytes, &bytes, &expected_digest), Ok(()));
    assert_eq!(
        check_existing_file(&bytes[1..], &bytes, &expected_digest),
        Err(LibraryError::MediaIntegrity { expected_digest: expected_digest.clone() })
    );
    let mut changed = bytes.clone();
    changed[0] ^= 1;
    assert!(check_existing_file(&changed, &bytes, &expected_digest).is_err());
}

#[test]
fn media_files_are_named_by_digest_and_extension() {
    assert_eq!(media_file_name("abc123", "png"), "abc123.png");
}

#[test]
fn media_summaries_keep_the_public_fields() {
    let record = MediaRecord {
        id: "media".to_owned(),
        digest: "digest".to_owned(),
        extension: "png".to_owned(),
        mime_type: "image/png".to_owned(),
        byte_size: 10,
        width: 2,
        height: 3,
    };
    let summary = record.summary();

    assert_eq!(summary.id, "media");
    assert_eq!(summary.mime_type, "image/png");
    assert_eq!((summary.byte_size, summary.width, summary.height), (10, 2, 3));
}

#[test]
fn only_the_four_accepted_signatures_are_images() {
    let mut bmp = b"BM".to_vec();
    bmp.extend_from_slice(&[0; 64]);
    assert_eq!(validate_image(&bmp), Err(LibraryError::UnsupportedImage));

    for header in [
        b"GIF89a".to_vec(),
        b"GIF87a".to_vec(),
        vec![0xff, 0xd8, 0xff],
        b"RIFF\x01\x02\x03\x04WEBP".to_vec(),
    ] {
        let mut bytes = header.clone();
        bytes.extend_from_slice(&[0; 8]);
        assert_eq!(validate_image(&bytes), Err(LibraryError::UnsupportedImage), "{header:?}");
    }
}
