use image_distributor::fingerprint::{ExifSummary, MetadataTags};
use image_distributor::timefmt::{
    format_iso8601, truncate_system_time, FileTime, TimeError, MAX_TIMESTAMP,
};

fn empty_tags() -> MetadataTags {
    MetadataTags {
        datetime_original: None,
        make: None,
        model: None,
        body_serial: None,
        image_unique_id: None,
        pixel_width: None,
        pixel_height: None,
    }
}

#[test]
fn make_and_model_combine() {
    let mut t = empty_tags();
    t.make = Some("Canon".to_string());
    t.model = Some("EOS R5".to_string());
    assert_eq!(ExifSummary::from_tags(t).make_model.as_deref(), Some("Canon/EOS R5"));
    let mut t = empty_tags();
    t.make = Some("Canon".to_string());
    assert_eq!(ExifSummary::from_tags(t).make_model.as_deref(), Some("Canon"));
    let mut t = empty_tags();
    t.model = Some("D850".to_string());
    assert_eq!(ExifSummary::from_tags(t).make_model.as_deref(), Some("D850"));
    assert_eq!(ExifSummary::from_tags(empty_tags()).make_model, None);
}

#[test]
fn dimensions_use_what_is_present() {
    let mut t = empty_tags();
    t.pixel_width = Some("6000".to_string());
    t.pixel_height = Some("4000".to_string());
    assert_eq!(ExifSummary::from_tags(t).image_dimensions.as_deref(), Some("6000x4000"));
    let mut t = empty_tags();
    t.pixel_width = Some("6000".to_string());
    assert_eq!(ExifSummary::from_tags(t).image_dimensions.as_deref(), Some("6000"));
    let mut t = empty_tags();
    t.pixel_height = Some("4000".to_string());
    assert_eq!(ExifSummary::from_tags(t).image_dimensions.as_deref(), Some("4000"));
    assert_eq!(ExifSummary::from_tags(empty_tags()).image_dimensions, None);
}

#[test]
fn other_fields_carry_over() {
    let mut t = empty_tags();
    t.datetime_original = Some("2025-01-01 00:00:00".to_string());
    t.body_serial = Some("42".to_string());
    t.image_unique_id = Some("abc".to_string());
    let s = ExifSummary::from_tags(t);
    assert_eq!(s.datetime_original.as_deref(), Some("2025-01-01 00:00:00"));
    assert_eq!(s.camera_serial.as_deref(), Some("42"));
    assert_eq!(s.image_unique_id.as_deref(), Some("abc"));
}

#[test]
fn hash_text_joins_fields() {
    assert_eq!(ExifSummary::from_tags(empty_tags()).hash_text(), "::::");
    let mut t = empty_tags();
    t.datetime_original = Some("2025:01:01 00:00:00".to_string());
    t.make = Some("Canon".to_string());
    t.model = Some("EOS R5".to_string());
    assert_eq!(ExifSummary::from_tags(t).hash_text(), "2025:01:01 00:00:00:Canon/EOS R5:::");
}

#[test]
fn hash_is_fnv_of_text() {
    assert_eq!(ExifSummary::from_tags(empty_tags()).calc_hash(), 14919654039781566725);
    let mut t = empty_tags();
    t.datetime_original = Some("2025:01:01 00:00:00".to_string());
    t.make = Some("Canon".to_string());
    t.model = Some("EOS R5".to_string());
    assert_eq!(ExifSummary::from_tags(t).calc_hash(), 10826329628645413254);
}

#[test]
fn truncation_drops_nanos() {
    assert_eq!(truncate_system_time(FileTime::new(5, 7)), Ok(FileTime::new(5, 0)));
    assert_eq!(truncate_system_time(FileTime::new(0, 0)), Ok(FileTime::new(0, 0)));
    assert_eq!(truncate_system_time(FileTime::new(-1, 999)), Err(TimeError::BeforeEpoch));
}

#[test]
fn formatting_is_rfc3339_to_the_second() {
    let a = format_iso8601(FileTime::new(1735657200, 123)).unwrap();
    let b = format_iso8601(FileTime::new(1735657200, 0)).unwrap();
    assert_eq!(a, b);
    assert_eq!(a.len(), 25);
    assert_eq!(&a[10..11], "T");
    assert_ne!(a, "1735657200");
    assert_eq!(format_iso8601(FileTime::new(-3, 0)), Err(TimeError::BeforeEpoch));
    assert!(format_iso8601(FileTime::new(MAX_TIMESTAMP, 0)).is_ok());
    assert_eq!(format_iso8601(FileTime::new(MAX_TIMESTAMP + 1, 0)), Err(TimeError::OutOfRange));
    assert_eq!(format_iso8601(FileTime::new(i64::MAX, 0)), Err(TimeError::OutOfRange));
}
