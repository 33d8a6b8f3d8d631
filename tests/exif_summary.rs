use image_distributor::fingerprint::{ExifSummary, MetadataTags};

/// A little-endian TIFF structure whose primary image carries only the Make
/// tag, set to "Canon".
fn tiff_with_make() -> Vec<u8> {
    let mut b = vec![0x49, 0x49, 0x2a, 0x00, 0x08, 0x00, 0x00, 0x00];
    // one entry
    b.extend_from_slice(&[0x01, 0x00]);
    // Make, ASCII, 6 bytes, at offset 26
    b.extend_from_slice(&[0x0f, 0x01, 0x02, 0x00, 0x06, 0x00, 0x00, 0x00, 0x1a, 0x00, 0x00, 0x00]);
    // no next IFD
    b.extend_from_slice(&[0x00, 0x00, 0x00, 0x00]);
    b.extend_from_slice(b"Canon\0");
    b
}

#[test]
fn tags_are_read_from_parsed_metadata() {
    let exif = exif::Reader::new().read_raw(tiff_with_make()).unwrap();
    let tags = MetadataTags::from_exif(&exif);
    assert_eq!(tags.make.as_deref(), Some("\"Canon\""));
    assert_eq!(tags.model, None);
    assert_eq!(tags.datetime_original, None);
    let summary = ExifSummary::from_exif(&exif);
    assert_eq!(summary.make_model.as_deref(), Some("\"Canon\""));
    assert_eq!(summary.image_dimensions, None);
    assert_eq!(summary.hash_text(), ":\"Canon\":::");
}
