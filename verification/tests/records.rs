use image_analyzer::gps::{find_entry, parse_gps_coordinate, resolve_position};
use image_analyzer::tags::tag_kind;
use image_analyzer::{GpsCoordinate, ImageMetadata, Rational, TagContext, TagEntry, TagKind};

fn entry(context: TagContext, number: u16, ifd: u16, name: &str, value: &str) -> TagEntry {
    TagEntry {
        context,
        number,
        ifd,
        name: name.to_string(),
        value: value.to_string(),
        bare_value: value.to_string(),
        uint: None,
        rationals: None,
    }
}

fn uint_entry(context: TagContext, number: u16, ifd: u16, name: &str, v: u32) -> TagEntry {
    let mut e = entry(context, number, ifd, name, &v.to_string());
    e.uint = Some(v);
    e
}

fn rational_entry(number: u16, ifd: u16, name: &str, parts: &[(u32, u32)]) -> TagEntry {
    let mut e = entry(TagContext::Gps, number, ifd, name, "");
    e.rationals = Some(parts.iter().map(|&(num, denom)| Rational { num, denom }).collect());
    e
}

fn whole(n: u32) -> (u32, u32) {
    (n, 1)
}

fn degrees(c: &GpsCoordinate) -> f64 {
    let (num, den) = c.decimal_fraction();
    let magnitude = num as f64 / den as f64;
    if c.negative {
        -magnitude
    } else {
        magnitude
    }
}

fn swept(entries: &Vec<TagEntry>) -> ImageMetadata {
    let mut record = ImageMetadata::empty();
    record.record_image(None, &Some(entries.clone()));
    record
}

#[test]
fn empty_record_has_nothing() {
    let r = ImageMetadata::empty();
    assert!(r.camera_make.is_none());
    assert!(r.camera_model.is_none());
    assert!(r.date_taken.is_none());
    assert!(r.gps_latitude.is_none());
    assert!(r.gps_longitude.is_none());
    assert!(r.gps_altitude.is_none());
    assert!(r.software.is_none());
    assert!(r.width.is_none());
    assert!(r.height.is_none());
    assert!(r.orientation.is_none());
    assert!(r.iso.is_none());
    assert!(r.exposure_time.is_none());
    assert!(r.f_number.is_none());
    assert!(r.focal_length.is_none());
    assert!(r.all_fields.is_empty());
}

#[test]
fn absent_container_and_dimensions_leave_record_empty() {
    let mut r = ImageMetadata::empty();
    r.record_image(None, &None);
    assert!(r.width.is_none() && r.height.is_none());
    assert!(r.camera_make.is_none() && r.date_taken.is_none());
    assert!(r.all_fields.is_empty());
}

#[test]
fn dimensions_are_recorded_without_container() {
    let mut r = ImageMetadata::empty();
    r.record_image(Some((640, 480)), &None);
    assert_eq!(r.width, Some(640));
    assert_eq!(r.height, Some(480));
    assert!(r.all_fields.is_empty());
}

#[test]
fn raw_fields_list_every_entry_in_order() {
    let entries = vec![
        entry(TagContext::Tiff, 0x010f, 0, "Make", "Acme"),
        entry(TagContext::Tiff, 0x9999, 0, "Tag(Tiff, 39321)", "1"),
        entry(TagContext::Exif, 0x9003, 0, "DateTimeOriginal", "2020:01:01"),
        entry(TagContext::Gps, 0x0002, 0, "GPSLatitude", "40 deg 26 min 46 sec"),
        entry(TagContext::Tiff, 0x010f, 1, "Make", "Zenith"),
    ];
    let r = swept(&entries);
    assert_eq!(r.all_fields.len(), 5);
    for (f, e) in r.all_fields.iter().zip(entries.iter()) {
        assert_eq!(f.tag, e.name);
        assert_eq!(f.value, e.value);
    }
}

#[test]
fn first_date_tag_wins() {
    let entries = vec![
        entry(TagContext::Exif, 0x9003, 0, "DateTimeOriginal", "2020:01:01"),
        entry(TagContext::Tiff, 0x0132, 0, "DateTime", "2019:05:05"),
    ];
    let r = swept(&entries);
    assert_eq!(r.date_taken.as_deref(), Some("2020:01:01"));
    assert_eq!(r.all_fields.len(), 2);
    assert_eq!(r.all_fields[1].value, "2019:05:05");
}

#[test]
fn digitized_date_counts_as_date() {
    let entries = vec![
        entry(TagContext::Exif, 0x9004, 0, "DateTimeDigitized", "2018:03:03"),
        entry(TagContext::Exif, 0x9003, 0, "DateTimeOriginal", "2020:01:01"),
    ];
    assert_eq!(swept(&entries).date_taken.as_deref(), Some("2018:03:03"));
}

#[test]
fn last_make_wins() {
    let entries = vec![
        entry(TagContext::Tiff, 0x010f, 0, "Make", "Acme"),
        entry(TagContext::Tiff, 0x010f, 0, "Make", "Zenith"),
    ];
    assert_eq!(swept(&entries).camera_make.as_deref(), Some("Zenith"));
}

#[test]
fn text_scalars_follow_their_tags() {
    let entries = vec![
        entry(TagContext::Tiff, 0x0110, 0, "Model", "X100"),
        entry(TagContext::Tiff, 0x0131, 0, "Software", "fw 1.2"),
        entry(TagContext::Exif, 0x829a, 0, "ExposureTime", "1/250 s"),
        entry(TagContext::Exif, 0x829d, 0, "FNumber", "f/2.8"),
        entry(TagContext::Exif, 0x920a, 0, "FocalLength", "24 mm"),
        entry(TagContext::Exif, 0x920a, 0, "FocalLength", "35 mm"),
    ];
    let r = swept(&entries);
    assert_eq!(r.camera_model.as_deref(), Some("X100"));
    assert_eq!(r.software.as_deref(), Some("fw 1.2"));
    assert_eq!(r.exposure_time.as_deref(), Some("1/250 s"));
    assert_eq!(r.f_number.as_deref(), Some("f/2.8"));
    assert_eq!(r.focal_length.as_deref(), Some("35 mm"));
    assert!(r.camera_make.is_none());
}

#[test]
fn same_number_in_another_namespace_is_another_tag() {
    let entries = vec![entry(TagContext::Exif, 0x010f, 0, "Tag(Exif, 271)", "Acme")];
    let r = swept(&entries);
    assert!(r.camera_make.is_none());
    assert_eq!(r.all_fields.len(), 1);
}

#[test]
fn thumbnail_orientation_is_ignored() {
    let entries = vec![uint_entry(TagContext::Tiff, 0x0112, 1, "Orientation", 6)];
    let r = swept(&entries);
    assert_eq!(r.orientation, None);
    assert_eq!(r.all_fields.len(), 1);
}

#[test]
fn primary_orientation_is_recorded() {
    let entries = vec![
        uint_entry(TagContext::Tiff, 0x0112, 0, "Orientation", 6),
        uint_entry(TagContext::Tiff, 0x0112, 1, "Orientation", 3),
    ];
    assert_eq!(swept(&entries).orientation, Some(6));
}

#[test]
fn orientation_keeps_low_sixteen_bits() {
    let entries = vec![uint_entry(TagContext::Tiff, 0x0112, 0, "Orientation", 0x0001_0008)];
    assert_eq!(swept(&entries).orientation, Some(8));
}

#[test]
fn orientation_without_integer_value_is_ignored() {
    let entries = vec![entry(TagContext::Tiff, 0x0112, 0, "Orientation", "top")];
    assert_eq!(swept(&entries).orientation, None);
}

#[test]
fn iso_is_read_as_unsigned() {
    let entries = vec![
        uint_entry(TagContext::Exif, 0x8833, 0, "ISOSpeed", 400),
        entry(TagContext::Exif, 0x8833, 0, "ISOSpeed", "n/a"),
    ];
    assert_eq!(swept(&entries).iso, Some(400));
}

#[test]
fn altitude_is_taken_in_the_sweep() {
    let entries = vec![
        rational_entry(0x0006, 0, "GPSAltitude", &[(1234, 10)]),
        rational_entry(0x0006, 0, "GPSAltitude", &[]),
    ];
    let r = swept(&entries);
    assert_eq!(r.gps_altitude, Some(Rational { num: 1234, denom: 10 }));
    assert!(r.gps_latitude.is_none() && r.gps_longitude.is_none());
}

fn position_entries() -> Vec<TagEntry> {
    vec![
        entry(TagContext::Gps, 0x0001, 0, "GPSLatitudeRef", "N"),
        rational_entry(0x0002, 0, "GPSLatitude", &[whole(40), whole(26), whole(46)]),
        entry(TagContext::Gps, 0x0003, 0, "GPSLongitudeRef", "W"),
        rational_entry(0x0004, 0, "GPSLongitude", &[whole(79), whole(58), whole(56)]),
    ]
}

#[test]
fn gps_round_trip() {
    let r = swept(&position_entries());
    let lat = r.gps_latitude.expect("latitude");
    let lon = r.gps_longitude.expect("longitude");
    assert!((degrees(&lat) - 40.44611).abs() < 1e-4);
    assert!((degrees(&lon) - -79.98222).abs() < 1e-4);
}

#[test]
fn decimal_fraction_is_exact() {
    let c = GpsCoordinate {
        negative: false,
        degrees: Rational { num: 40, denom: 1 },
        minutes: Rational { num: 53, denom: 2 },
        seconds: Rational { num: 46, denom: 1 },
    };
    assert_eq!(c.decimal_fraction(), (40 * 2 * 3600 + 53 * 60 + 46 * 2, 2 * 3600));
    let zero = GpsCoordinate { degrees: Rational { num: 1, denom: 0 }, ..c };
    assert_eq!(zero.decimal_fraction().1, 0);
}

#[test]
fn decimal_fraction_takes_the_largest_components() {
    let m = Rational { num: u32::MAX, denom: u32::MAX };
    let c = GpsCoordinate { negative: true, degrees: m, minutes: m, seconds: m };
    let cube = (u32::MAX as u128).pow(3);
    assert_eq!(c.decimal_fraction(), (cube * 3661, cube * 3600));
}

#[test]
fn southern_and_western_hemispheres_are_negative() {
    let value = rational_entry(0x0002, 0, "GPSLatitude", &[whole(1), whole(2), whole(3)]);
    for (reference, negative) in [("S", true), ("W", true), ("N", false), ("E", false), ("s", false), ("", false), ("SW", false)] {
        let r = entry(TagContext::Gps, 0x0001, 0, "GPSLatitudeRef", reference);
        let c = parse_gps_coordinate(&value, &r).expect("coordinate");
        assert_eq!(c.negative, negative);
        assert_eq!(c.degrees, Rational { num: 1, denom: 1 });
        assert_eq!(c.minutes, Rational { num: 2, denom: 1 });
        assert_eq!(c.seconds, Rational { num: 3, denom: 1 });
    }
}

#[test]
fn short_triple_gives_no_coordinate() {
    let r = entry(TagContext::Gps, 0x0001, 0, "GPSLatitudeRef", "N");
    let two = rational_entry(0x0002, 0, "GPSLatitude", &[whole(1), whole(2)]);
    assert!(parse_gps_coordinate(&two, &r).is_none());
    let none = entry(TagContext::Gps, 0x0002, 0, "GPSLatitude", "1, 2, 3");
    assert!(parse_gps_coordinate(&none, &r).is_none());
}

#[test]
fn latitude_alone_sets_neither_coordinate() {
    let mut entries = position_entries();
    entries.truncate(2);
    let r = swept(&entries);
    assert!(r.gps_latitude.is_none());
    assert!(r.gps_longitude.is_none());
    assert_eq!(r.all_fields.len(), 2);
}

#[test]
fn missing_longitude_reference_sets_neither_coordinate() {
    let mut entries = position_entries();
    entries.remove(2);
    assert!(resolve_position(&entries).is_none());
}

#[test]
fn one_undecodable_coordinate_sets_neither() {
    let mut entries = position_entries();
    entries[3] = rational_entry(0x0004, 0, "GPSLongitude", &[whole(79)]);
    let r = swept(&entries);
    assert!(r.gps_latitude.is_none());
    assert!(r.gps_longitude.is_none());
}

#[test]
fn position_outside_primary_directory_is_not_resolved() {
    let mut entries = position_entries();
    for e in entries.iter_mut() {
        e.ifd = 1;
    }
    assert!(resolve_position(&entries).is_none());
}

#[test]
fn existing_position_is_kept() {
    let kept = GpsCoordinate {
        negative: false,
        degrees: Rational { num: 1, denom: 1 },
        minutes: Rational { num: 0, denom: 1 },
        seconds: Rational { num: 0, denom: 1 },
    };
    let mut r = ImageMetadata::empty();
    r.gps_latitude = Some(kept);
    r.gps_longitude = Some(kept);
    r.record_position(&position_entries());
    assert_eq!(r.gps_latitude, Some(kept));
    assert_eq!(r.gps_longitude, Some(kept));
}

#[test]
fn repeated_tag_is_found_at_its_last_position() {
    let mut entries = position_entries();
    entries.push(entry(TagContext::Gps, 0x0001, 0, "GPSLatitudeRef", "S"));
    assert_eq!(find_entry(&entries, TagContext::Gps, 0x0001, 0), Some(4));
    assert_eq!(find_entry(&entries, TagContext::Gps, 0x0003, 0), Some(2));
    assert_eq!(find_entry(&entries, TagContext::Gps, 0x0005, 0), None);
    let (lat, _) = resolve_position(&entries).expect("position");
    assert!(lat.negative);
}

#[test]
fn known_tags_are_classified() {
    assert_eq!(tag_kind(TagContext::Tiff, 0x010f), TagKind::Make);
    assert_eq!(tag_kind(TagContext::Tiff, 0x0110), TagKind::Model);
    assert_eq!(tag_kind(TagContext::Tiff, 0x0112), TagKind::Orientation);
    assert_eq!(tag_kind(TagContext::Tiff, 0x0131), TagKind::Software);
    assert_eq!(tag_kind(TagContext::Tiff, 0x0132), TagKind::DateTime);
    assert_eq!(tag_kind(TagContext::Exif, 0x829a), TagKind::ExposureTime);
    assert_eq!(tag_kind(TagContext::Exif, 0x829d), TagKind::FNumber);
    assert_eq!(tag_kind(TagContext::Exif, 0x8833), TagKind::IsoSpeed);
    assert_eq!(tag_kind(TagContext::Exif, 0x9003), TagKind::DateTimeOriginal);
    assert_eq!(tag_kind(TagContext::Exif, 0x9004), TagKind::DateTimeDigitized);
    assert_eq!(tag_kind(TagContext::Exif, 0x920a), TagKind::FocalLength);
    assert_eq!(tag_kind(TagContext::Gps, 0x0001), TagKind::GpsLatitudeRef);
    assert_eq!(tag_kind(TagContext::Gps, 0x0002), TagKind::GpsLatitude);
    assert_eq!(tag_kind(TagContext::Gps, 0x0003), TagKind::GpsLongitudeRef);
    assert_eq!(tag_kind(TagContext::Gps, 0x0004), TagKind::GpsLongitude);
    assert_eq!(tag_kind(TagContext::Gps, 0x0006), TagKind::GpsAltitude);
    assert_eq!(tag_kind(TagContext::Gps, 0x0005), TagKind::Other);
    assert_eq!(tag_kind(TagContext::Interop, 0x0001), TagKind::Other);
    assert_eq!(tag_kind(TagContext::Other, 0x010f), TagKind::Other);
}
