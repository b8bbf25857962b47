//! Tags of a metadata container as plain values, and the table of the tags
//! that the record knows by name.

use vstd::prelude::*;

verus! {

/// The namespace in which a tag number is read.
#[derive(Clone, Copy, Debug, PartialEq, Eq, Structural)]
pub enum TagContext {
    Tiff,
    Exif,
    Gps,
    Interop,
    /// A namespace that this library has no name for.
    Other,
}

/// An unsigned fraction as the container stores it. The denominator may be zero.
#[derive(Clone, Copy, Debug, PartialEq, Eq, Structural)]
pub struct Rational {
    pub num: u32,
    pub denom: u32,
}

/// The tags that are routed somewhere besides the raw field list.
#[derive(Clone, Copy, Debug, PartialEq, Eq, Structural)]
pub enum TagKind {
    Make,
    Model,
    DateTime,
    DateTimeOriginal,
    DateTimeDigitized,
    Software,
    Orientation,
    IsoSpeed,
    ExposureTime,
    FNumber,
    FocalLength,
    GpsLatitudeRef,
    GpsLatitude,
    GpsLongitudeRef,
    GpsLongitude,
    GpsAltitude,
    Other,
}

/// Index of the directory that holds the primary image.
pub const PRIMARY_IFD: u16 = 0;

/// What tag a number stands for in a namespace.
pub open spec fn classify(context: TagContext, number: u16) -> TagKind {
    if context == TagContext::Tiff && number == 0x010f {
        TagKind::Make
    } else if context == TagContext::Tiff && number == 0x0110 {
        TagKind::Model
    } else if context == TagContext::Tiff && number == 0x0112 {
        TagKind::Orientation
    } else if context == TagContext::Tiff && number == 0x0131 {
        TagKind::Software
    } else if context == TagContext::Tiff && number == 0x0132 {
        TagKind::DateTime
    } else if context == TagContext::Exif && number == 0x829a {
        TagKind::ExposureTime
    } else if context == TagContext::Exif && number == 0x829d {
        TagKind::FNumber
    } else if context == TagContext::Exif && number == 0x8833 {
        TagKind::IsoSpeed
    } else if context == TagContext::Exif && number == 0x9003 {
        TagKind::DateTimeOriginal
    } else if context == TagContext::Exif && number == 0x9004 {
        TagKind::DateTimeDigitized
    } else if context == TagContext::Exif && number == 0x920a {
        TagKind::FocalLength
    } else if context == TagContext::Gps && number == 0x0001 {
        TagKind::GpsLatitudeRef
    } else if context == TagContext::Gps && number == 0x0002 {
        TagKind::GpsLatitude
    } else if context == TagContext::Gps && number == 0x0003 {
        TagKind::GpsLongitudeRef
    } else if context == TagContext::Gps && number == 0x0004 {
        TagKind::GpsLongitude
    } else if context == TagContext::Gps && number == 0x0006 {
        TagKind::GpsAltitude
    } else {
        TagKind::Other
    }
}

/// Whether a tag is one of the three that carry a capture date.
pub open spec fn is_date(kind: TagKind) -> bool {
    kind == TagKind::DateTime || kind == TagKind::DateTimeOriginal
        || kind == TagKind::DateTimeDigitized
}

/// One tag of a container, in the order in which the container is walked.
#[derive(Clone, Debug)]
pub struct TagEntry {
    pub context: TagContext,
    pub number: u16,
    /// Index of the directory the tag sits in; 0 is the primary image, 1 the thumbnail.
    pub ifd: u16,
    /// The tag's machine name.
    pub name: String,
    /// The value rendered for display, with the unit the tag defines.
    pub value: String,
    /// The value rendered for display without a unit.
    pub bare_value: String,
    /// The first component, where the value is made of unsigned integers.
    pub uint: Option<u32>,
    /// The components, where the value is made of unsigned fractions.
    pub rationals: Option<Vec<Rational>>,
}

/// The mathematical value of a `TagEntry`.
pub struct TagEntryModel {
    pub context: TagContext,
    pub number: u16,
    pub ifd: u16,
    pub name: Seq<char>,
    pub value: Seq<char>,
    pub bare_value: Seq<char>,
    pub uint: Option<u32>,
    pub rationals: Option<Seq<Rational>>,
}

impl TagEntryModel {
    pub open spec fn kind(self) -> TagKind {
        classify(self.context, self.number)
    }
}

/// The components of an optional run of fractions.
pub open spec fn fractions(o: Option<Vec<Rational>>) -> Option<Seq<Rational>> {
    match o {
        Some(v) => Some(v@),
        None => None,
    }
}

impl View for TagEntry {
    type V = TagEntryModel;

    open spec fn view(&self) -> TagEntryModel {
        TagEntryModel {
            context: self.context,
            number: self.number,
            ifd: self.ifd,
            name: self.name@,
            value: self.value@,
            bare_value: self.bare_value@,
            uint: self.uint,
            rationals: fractions(self.rationals),
        }
    }
}

/// The values of a run of entries.
pub open spec fn entry_models(entries: Seq<TagEntry>) -> Seq<TagEntryModel> {
    entries.map_values(|e: TagEntry| e@)
}

impl TagEntry {
    /// The tag this entry stands for.
    pub fn kind(&self) -> (k: TagKind)
        ensures
            k == self@.kind(),
    {
        tag_kind(self.context, self.number)
    }
}

/// Looks a tag up in the table of known tags.
pub fn tag_kind(context: TagContext, number: u16) -> (k: TagKind)
    ensures
        k == classify(context, number),
{
    match context {
        TagContext::Tiff => match number {
            0x010f => TagKind::Make,
            0x0110 => TagKind::Model,
            0x0112 => TagKind::Orientation,
            0x0131 => TagKind::Software,
            0x0132 => TagKind::DateTime,
            _ => TagKind::Other,
        },
        TagContext::Exif => match number {
            0x829a => TagKind::ExposureTime,
            0x829d => TagKind::FNumber,
            0x8833 => TagKind::IsoSpeed,
            0x9003 => TagKind::DateTimeOriginal,
            0x9004 => TagKind::DateTimeDigitized,
            0x920a => TagKind::FocalLength,
            _ => TagKind::Other,
        },
        TagContext::Gps => match number {
            0x0001 => TagKind::GpsLatitudeRef,
            0x0002 => TagKind::GpsLatitude,
            0x0003 => TagKind::GpsLongitudeRef,
            0x0004 => TagKind::GpsLongitude,
            0x0006 => TagKind::GpsAltitude,
            _ => TagKind::Other,
        },
        _ => TagKind::Other,
    }
}

} // verus!
