//! The normalized metadata record and the sweep that fills it from the tags
//! of a container.

use vstd::prelude::*;
use crate::gps::{resolve_position, resolved_position, GpsCoordinate};
use crate::tags::{entry_models, is_date, Rational, TagEntry, TagEntryModel, TagKind, PRIMARY_IFD};

verus! {

/// One tag as it was found: its machine name and its display value.
#[derive(Debug)]
pub struct MetadataField {
    pub tag: String,
    pub value: String,
}

/// The mathematical value of a `MetadataField`.
pub struct FieldModel {
    pub tag: Seq<char>,
    pub value: Seq<char>,
}

impl View for MetadataField {
    type V = FieldModel;

    open spec fn view(&self) -> FieldModel {
        FieldModel { tag: self.tag@, value: self.value@ }
    }
}

impl Clone for MetadataField {
    fn clone(&self) -> (r: Self)
        ensures
            r@ == self@,
    {
        MetadataField { tag: self.tag.clone(), value: self.value.clone() }
    }
}

/// What is known of a photo. Every scalar is optional on its own: `None`
/// means that the source did not hold it. `all_fields` lists every tag of
/// the container in traversal order.
#[derive(Debug)]
pub struct ImageMetadata {
    pub camera_make: Option<String>,
    pub camera_model: Option<String>,
    pub date_taken: Option<String>,
    pub gps_latitude: Option<GpsCoordinate>,
    pub gps_longitude: Option<GpsCoordinate>,
    pub gps_altitude: Option<Rational>,
    pub software: Option<String>,
    pub width: Option<u32>,
    pub height: Option<u32>,
    pub orientation: Option<u16>,
    pub iso: Option<u32>,
    pub exposure_time: Option<String>,
    pub f_number: Option<String>,
    pub focal_length: Option<String>,
    pub all_fields: Vec<MetadataField>,
}

/// The mathematical value of an `ImageMetadata`.
pub struct MetadataModel {
    pub camera_make: Option<Seq<char>>,
    pub camera_model: Option<Seq<char>>,
    pub date_taken: Option<Seq<char>>,
    pub gps_latitude: Option<GpsCoordinate>,
    pub gps_longitude: Option<GpsCoordinate>,
    pub gps_altitude: Option<Rational>,
    pub software: Option<Seq<char>>,
    pub width: Option<u32>,
    pub height: Option<u32>,
    pub orientation: Option<u16>,
    pub iso: Option<u32>,
    pub exposure_time: Option<Seq<char>>,
    pub f_number: Option<Seq<char>>,
    pub focal_length: Option<Seq<char>>,
    pub all_fields: Seq<FieldModel>,
}

/// The characters of an optional text.
pub open spec fn text(o: Option<String>) -> Option<Seq<char>> {
    match o {
        Some(s) => Some(s@),
        None => None,
    }
}

/// The values of a run of raw fields.
pub open spec fn field_models(fields: Seq<MetadataField>) -> Seq<FieldModel> {
    fields.map_values(|f: MetadataField| f@)
}

impl View for ImageMetadata {
    type V = MetadataModel;

    open spec fn view(&self) -> MetadataModel {
        MetadataModel {
            camera_make: text(self.camera_make),
            camera_model: text(self.camera_model),
            date_taken: text(self.date_taken),
            gps_latitude: self.gps_latitude,
            gps_longitude: self.gps_longitude,
            gps_altitude: self.gps_altitude,
            software: text(self.software),
            width: self.width,
            height: self.height,
            orientation: self.orientation,
            iso: self.iso,
            exposure_time: text(self.exposure_time),
            f_number: text(self.f_number),
            focal_length: text(self.focal_length),
            all_fields: field_models(self.all_fields@),
        }
    }
}

/// The record of a source that holds nothing: no scalar, no raw field.
pub open spec fn empty_record() -> MetadataModel {
    MetadataModel {
        camera_make: None,
        camera_model: None,
        date_taken: None,
        gps_latitude: None,
        gps_longitude: None,
        gps_altitude: None,
        software: None,
        width: None,
        height: None,
        orientation: None,
        iso: None,
        exposure_time: None,
        f_number: None,
        focal_length: None,
        all_fields: Seq::empty(),
    }
}

/// The first of two optional values that is present.
pub open spec fn prefer<T>(first: Option<T>, second: Option<T>) -> Option<T> {
    if first is Some {
        first
    } else {
        second
    }
}

/// Display value of the last entry of the given kind.
pub open spec fn last_value(s: Seq<TagEntryModel>, kind: TagKind) -> Option<Seq<char>>
    decreases s.len(),
{
    if s.len() == 0 {
        None
    } else if s.last().kind() == kind {
        Some(s.last().value)
    } else {
        last_value(s.drop_last(), kind)
    }
}

/// Display value of the first entry that is one of the three date tags.
pub open spec fn first_date(s: Seq<TagEntryModel>) -> Option<Seq<char>>
    decreases s.len(),
{
    if s.len() == 0 {
        None
    } else if first_date(s.drop_last()) is Some {
        first_date(s.drop_last())
    } else if is_date(s.last().kind()) {
        Some(s.last().value)
    } else {
        None
    }
}

/// An unsigned value narrowed to its low 16 bits.
pub open spec fn low_16(v: u32) -> u16 {
    (v % 0x1_0000) as u16
}

/// The orientation code that one entry sets: only an orientation tag of the
/// primary directory with an unsigned integer value sets one.
pub open spec fn orientation_of(e: TagEntryModel) -> Option<u16> {
    if e.kind() == TagKind::Orientation && e.ifd == PRIMARY_IFD && e.uint is Some {
        Some(low_16(e.uint->0))
    } else {
        None
    }
}

/// The ISO value that one entry sets.
pub open spec fn iso_of(e: TagEntryModel) -> Option<u32> {
    if e.kind() == TagKind::IsoSpeed {
        e.uint
    } else {
        None
    }
}

/// The altitude that one entry sets: the first fraction of an altitude tag.
pub open spec fn altitude_of(e: TagEntryModel) -> Option<Rational> {
    if e.kind() == TagKind::GpsAltitude && e.rationals is Some && e.rationals->0.len() > 0 {
        Some(e.rationals->0[0])
    } else {
        None
    }
}

/// Orientation set by the last entry that sets one.
pub open spec fn last_orientation(s: Seq<TagEntryModel>) -> Option<u16>
    decreases s.len(),
{
    if s.len() == 0 {
        None
    } else {
        prefer(orientation_of(s.last()), last_orientation(s.drop_last()))
    }
}

/// ISO value set by the last entry that sets one.
pub open spec fn last_iso(s: Seq<TagEntryModel>) -> Option<u32>
    decreases s.len(),
{
    if s.len() == 0 {
        None
    } else {
        prefer(iso_of(s.last()), last_iso(s.drop_last()))
    }
}

/// Altitude set by the last entry that sets one.
pub open spec fn last_altitude(s: Seq<TagEntryModel>) -> Option<Rational>
    decreases s.len(),
{
    if s.len() == 0 {
        None
    } else {
        prefer(altitude_of(s.last()), last_altitude(s.drop_last()))
    }
}

/// The raw fields of a run of entries: one per entry, in the same order.
pub open spec fn raw_fields(s: Seq<TagEntryModel>) -> Seq<FieldModel> {
    s.map_values(|e: TagEntryModel| FieldModel { tag: e.name, value: e.value })
}

/// A record after one pass over a run of entries. Text scalars take the last
/// value seen, the date keeps the first, and latitude and longitude are not
/// touched.
pub open spec fn swept(old: MetadataModel, s: Seq<TagEntryModel>) -> MetadataModel {
    MetadataModel {
        camera_make: prefer(last_value(s, TagKind::Make), old.camera_make),
        camera_model: prefer(last_value(s, TagKind::Model), old.camera_model),
        date_taken: prefer(old.date_taken, first_date(s)),
        gps_altitude: prefer(last_altitude(s), old.gps_altitude),
        software: prefer(last_value(s, TagKind::Software), old.software),
        orientation: prefer(last_orientation(s), old.orientation),
        iso: prefer(last_iso(s), old.iso),
        exposure_time: prefer(last_value(s, TagKind::ExposureTime), old.exposure_time),
        f_number: prefer(last_value(s, TagKind::FNumber), old.f_number),
        focal_length: prefer(last_value(s, TagKind::FocalLength), old.focal_length),
        all_fields: old.all_fields + raw_fields(s),
        ..old
    }
}

/// A record after the position of a container is added to it: where it
/// lacks latitude or longitude and the container resolves to a position,
/// both are set; else both stay.
pub open spec fn positioned(old: MetadataModel, s: Seq<TagEntryModel>) -> MetadataModel {
    if old.gps_latitude is None || old.gps_longitude is None {
        match resolved_position(s) {
            Some((latitude, longitude)) => MetadataModel {
                gps_latitude: Some(latitude),
                gps_longitude: Some(longitude),
                ..old
            },
            None => old,
        }
    } else {
        old
    }
}

/// A record after the pixel size is added to it, where there is one.
pub open spec fn sized(old: MetadataModel, dimensions: Option<(u32, u32)>) -> MetadataModel {
    match dimensions {
        Some((width, height)) => MetadataModel { width: Some(width), height: Some(height), ..old },
        None => old,
    }
}

/// A record after extraction: pixel size, then the tags of the container
/// where there is one, then its position.
pub open spec fn extracted(
    old: MetadataModel,
    dimensions: Option<(u32, u32)>,
    container: Option<Seq<TagEntryModel>>,
) -> MetadataModel {
    match container {
        Some(s) => positioned(swept(sized(old, dimensions), s), s),
        None => sized(old, dimensions),
    }
}

/// A pass over no entries changes nothing.
pub proof fn lemma_swept_nothing(old: MetadataModel)
    ensures
        swept(old, Seq::empty()) == old,
{
    assert(old.all_fields + raw_fields(Seq::empty()) =~= old.all_fields);
}

/// A pass over a run of entries and then over one more is a pass over the
/// longer run.
pub proof fn lemma_swept_push(old: MetadataModel, s: Seq<TagEntryModel>, e: TagEntryModel)
    ensures
        swept(swept(old, s), seq![e]) == swept(old, s.push(e)),
{
    let one = seq![e];
    let t = s.push(e);
    assert(one.drop_last() =~= Seq::<TagEntryModel>::empty());
    assert(t.drop_last() =~= s);
    assert(one.last() == e && t.last() == e);
    reveal_with_fuel(last_value, 2);
    reveal_with_fuel(first_date, 2);
    reveal_with_fuel(last_orientation, 2);
    reveal_with_fuel(last_iso, 2);
    reveal_with_fuel(last_altitude, 2);
    assert((old.all_fields + raw_fields(s)) + raw_fields(one) =~= old.all_fields + raw_fields(t));
}

impl ImageMetadata {
    /// A record with nothing in it.
    pub fn empty() -> (r: ImageMetadata)
        ensures
            r@ == empty_record(),
    {
        let r = ImageMetadata {
            camera_make: None,
            camera_model: None,
            date_taken: None,
            gps_latitude: None,
            gps_longitude: None,
            gps_altitude: None,
            software: None,
            width: None,
            height: None,
            orientation: None,
            iso: None,
            exposure_time: None,
            f_number: None,
            focal_length: None,
            all_fields: Vec::new(),
        };
        proof {
            assert(r@.all_fields =~= Seq::empty());
        }
        r
    }

    /// Routes one entry: appends its raw field and sets the scalar that its
    /// tag stands for, if any.
    pub fn record_entry(&mut self, entry: &TagEntry)
        ensures
            final(self)@ == swept(old(self)@, seq![entry@]),
    {
        let ghost one = seq![entry@];
        proof {
            assert(one.drop_last() =~= Seq::<TagEntryModel>::empty());
            assert(one.last() == entry@);
            assert(old(self)@.all_fields + raw_fields(one) =~= old(self)@.all_fields.push(
                FieldModel { tag: entry@.name, value: entry@.value },
            ));
            assert(field_models(old(self).all_fields@.push(
                MetadataField { tag: entry.name, value: entry.value })) =~= old(self)@.all_fields.push(
                FieldModel { tag: entry@.name, value: entry@.value },
            ));
            reveal_with_fuel(last_value, 2);
            reveal_with_fuel(first_date, 2);
            reveal_with_fuel(last_orientation, 2);
            reveal_with_fuel(last_iso, 2);
            reveal_with_fuel(last_altitude, 2);
        }
        self.all_fields.push(MetadataField { tag: entry.name.clone(), value: entry.value.clone() });
        match entry.kind() {
            TagKind::Make => {
                self.camera_make = Some(entry.value.clone());
            },
            TagKind::Model => {
                self.camera_model = Some(entry.value.clone());
            },
            TagKind::DateTime | TagKind::DateTimeOriginal | TagKind::DateTimeDigitized => {
                if self.date_taken.is_none() {
                    self.date_taken = Some(entry.value.clone());
                }
            },
            TagKind::Software => {
                self.software = Some(entry.value.clone());
            },
            TagKind::Orientation => {
                if entry.ifd == PRIMARY_IFD {
                    if let Some(orientation) = entry.uint {
                        self.orientation = Some((orientation % 0x1_0000) as u16);
                    }
                }
            },
            TagKind::IsoSpeed => {
                if let Some(iso) = entry.uint {
                    self.iso = Some(iso);
                }
            },
            TagKind::ExposureTime => {
                self.exposure_time = Some(entry.value.clone());
            },
            TagKind::FNumber => {
                self.f_number = Some(entry.value.clone());
            },
            TagKind::FocalLength => {
                self.focal_length = Some(entry.value.clone());
            },
            TagKind::GpsAltitude => {
                if let Some(rationals) = &entry.rationals {
                    if rationals.len() > 0 {
                        self.gps_altitude = Some(rationals[0]);
                    }
                }
            },
            _ => {},
        }
    }

    /// Routes every entry of a container in traversal order.
    pub fn record_entries(&mut self, entries: &Vec<TagEntry>)
        ensures
            final(self)@ == swept(old(self)@, entry_models(entries@)),
    {
        let ghost s = entry_models(entries@);
        let mut i: usize = 0;
        proof {
            lemma_swept_nothing(old(self)@);
            assert(s.take(0) =~= Seq::<TagEntryModel>::empty());
        }
        while i < entries.len()
            invariant
                i <= entries@.len(),
                s == entry_models(entries@),
                self@ == swept(old(self)@, s.take(i as int)),
            decreases entries@.len() - i,
        {
            proof {
                lemma_swept_push(old(self)@, s.take(i as int), entries@[i as int]@);
                assert(s.take(i as int).push(entries@[i as int]@) =~= s.take(i + 1));
            }
            self.record_entry(&entries[i]);
            i = i + 1;
        }
        proof {
            assert(s.take(i as int) =~= s);
        }
    }

    /// Sets the pixel size, where one was decoded.
    pub fn record_dimensions(&mut self, dimensions: Option<(u32, u32)>)
        ensures
            final(self)@ == sized(old(self)@, dimensions),
    {
        if let Some((width, height)) = dimensions {
            self.width = Some(width);
            self.height = Some(height);
        }
    }

    /// Sets latitude and longitude from the GPS tags of a container, unless
    /// the record holds both already. Either both are written or neither.
    pub fn record_position(&mut self, entries: &Vec<TagEntry>)
        ensures
            final(self)@ == positioned(old(self)@, entry_models(entries@)),
    {
        if self.gps_latitude.is_none() || self.gps_longitude.is_none() {
            if let Some((latitude, longitude)) = resolve_position(entries) {
                self.gps_latitude = Some(latitude);
                self.gps_longitude = Some(longitude);
            }
        }
    }

    /// Fills the record from what was read of an image: its pixel size and
    /// the tags of its container, each of which may be absent.
    pub fn record_image(&mut self, dimensions: Option<(u32, u32)>, container: &Option<Vec<TagEntry>>)
        ensures
            final(self)@ == extracted(
                old(self)@,
                dimensions,
                match *container {
                    Some(v) => Some(entry_models(v@)),
                    None => None,
                },
            ),
    {
        self.record_dimensions(dimensions);
        if let Some(entries) = container {
            self.record_entries(entries);
            self.record_position(entries);
        }
    }
}

impl Clone for ImageMetadata {
    fn clone(&self) -> (r: Self)
        ensures
            r@ == self@,
    {
        let mut all_fields: Vec<MetadataField> = Vec::new();
        let mut i: usize = 0;
        while i < self.all_fields.len()
            invariant
                i <= self.all_fields@.len(),
                all_fields@.len() == i,
                forall|j: int| 0 <= j < i ==> (#[trigger] all_fields@[j])@ == self.all_fields@[j]@,
            decreases self.all_fields@.len() - i,
        {
            all_fields.push(self.all_fields[i].clone());
            i = i + 1;
        }
        proof {
            assert(field_models(all_fields@) =~= field_models(self.all_fields@));
        }
        ImageMetadata {
            camera_make: self.camera_make.clone(),
            camera_model: self.camera_model.clone(),
            date_taken: self.date_taken.clone(),
            gps_latitude: self.gps_latitude,
            gps_longitude: self.gps_longitude,
            gps_altitude: self.gps_altitude,
            software: self.software.clone(),
            width: self.width,
            height: self.height,
            orientation: self.orientation,
            iso: self.iso,
            exposure_time: self.exposure_time.clone(),
            f_number: self.f_number.clone(),
            focal_length: self.focal_length.clone(),
            all_fields,
        }
    }
}

} // verus!
