//! Decoding a GPS position from the paired coordinate and hemisphere tags.

use vstd::prelude::*;
use crate::tags::{Rational, TagContext, TagEntry, TagEntryModel, entry_models, PRIMARY_IFD};

verus! {

/// Tag numbers of the GPS directory that the position is read from.
pub const GPS_LATITUDE_REF: u16 = 0x0001;

pub const GPS_LATITUDE: u16 = 0x0002;

pub const GPS_LONGITUDE_REF: u16 = 0x0003;

pub const GPS_LONGITUDE: u16 = 0x0004;

/// A coordinate in degrees, minutes and seconds, with its sign.
///
/// It stands for `degrees + minutes / 60 + seconds / 3600`, negated where
/// `negative` is set.
#[derive(Clone, Copy, Debug, PartialEq, Eq, Structural)]
pub struct GpsCoordinate {
    /// Set for the southern and the western hemisphere.
    pub negative: bool,
    pub degrees: Rational,
    pub minutes: Rational,
    pub seconds: Rational,
}

impl GpsCoordinate {
    /// Numerator of the magnitude in decimal degrees, over `denominator`.
    pub open spec fn numerator(self) -> int {
        self.degrees.num * self.minutes.denom * self.seconds.denom * 3600
            + self.minutes.num * self.degrees.denom * self.seconds.denom * 60
            + self.seconds.num * self.degrees.denom * self.minutes.denom
    }

    /// Common denominator of the three components, scaled to seconds.
    pub open spec fn denominator(self) -> int {
        self.degrees.denom * self.minutes.denom * self.seconds.denom * 3600
    }

    /// The magnitude in decimal degrees as an exact fraction: numerator and
    /// denominator. The denominator is zero where a component's is.
    pub fn decimal_fraction(&self) -> (r: (u128, u128))
        ensures
            r.0 == self.numerator(),
            r.1 == self.denominator(),
    {
        let d = triple_product(self.degrees.num, self.minutes.denom, self.seconds.denom);
        let m = triple_product(self.minutes.num, self.degrees.denom, self.seconds.denom);
        let s = triple_product(self.seconds.num, self.degrees.denom, self.minutes.denom);
        let q = triple_product(self.degrees.denom, self.minutes.denom, self.seconds.denom);
        (d * 3600 + m * 60 + s, q * 3600)
    }
}

/// Product of three 32-bit factors, which fits in 96 bits.
fn triple_product(a: u32, b: u32, c: u32) -> (p: u128)
    ensures
        p == a * b * c,
        p <= 0xffff_fffd_0000_0002_ffff_ffff,
{
    proof {
        assert(a * b <= 0xffff_ffff * 0xffff_ffff) by (nonlinear_arith)
            requires
                a <= 0xffff_ffff,
                b <= 0xffff_ffff,
        ;
        assert((a * b) * c <= 0xffff_fffe_0000_0001 * 0xffff_ffff) by (nonlinear_arith)
            requires
                0 <= a * b <= 0xffff_fffe_0000_0001,
                c <= 0xffff_ffff,
        ;
    }
    let ab: u64 = (a as u64) * (b as u64);
    (ab as u128) * (c as u128)
}

/// Whether an entry is the given GPS tag in the given directory.
pub open spec fn has_key(e: TagEntryModel, context: TagContext, number: u16, ifd: u16) -> bool {
    e.context == context && e.number == number && e.ifd == ifd
}

/// Position of the last entry with the given tag in the given directory:
/// where a container repeats a tag, the later one is the one found.
pub open spec fn last_index(s: Seq<TagEntryModel>, context: TagContext, number: u16, ifd: u16)
    -> Option<int>
    decreases s.len(),
{
    if s.len() == 0 {
        None
    } else if has_key(s.last(), context, number, ifd) {
        Some(s.len() - 1)
    } else {
        last_index(s.drop_last(), context, number, ifd)
    }
}

/// The coordinate that a value tag and its hemisphere tag give: none unless
/// the value holds at least three fractions; negative exactly for the
/// hemispheres "S" and "W".
pub open spec fn coordinate(value: TagEntryModel, reference: TagEntryModel) -> Option<
    GpsCoordinate,
> {
    match value.rationals {
        Some(r) => if r.len() >= 3 {
            Some(
                GpsCoordinate {
                    negative: reference.bare_value == "S"@ || reference.bare_value == "W"@,
                    degrees: r[0],
                    minutes: r[1],
                    seconds: r[2],
                },
            )
        } else {
            None
        },
        None => None,
    }
}

/// Latitude and longitude of a container: both or neither. All four tags
/// must stand in the primary directory and both values must decode.
pub open spec fn resolved_position(s: Seq<TagEntryModel>) -> Option<(GpsCoordinate, GpsCoordinate)> {
    let lat = last_index(s, TagContext::Gps, GPS_LATITUDE, PRIMARY_IFD);
    let lat_ref = last_index(s, TagContext::Gps, GPS_LATITUDE_REF, PRIMARY_IFD);
    let lon = last_index(s, TagContext::Gps, GPS_LONGITUDE, PRIMARY_IFD);
    let lon_ref = last_index(s, TagContext::Gps, GPS_LONGITUDE_REF, PRIMARY_IFD);
    if lat is Some && lat_ref is Some && lon is Some && lon_ref is Some {
        let latitude = coordinate(s[lat->0], s[lat_ref->0]);
        let longitude = coordinate(s[lon->0], s[lon_ref->0]);
        if latitude is Some && longitude is Some {
            Some((latitude->0, longitude->0))
        } else {
            None
        }
    } else {
        None
    }
}

/// A position returned by `last_index` lies in the sequence and holds the key.
pub proof fn lemma_last_index_found(
    s: Seq<TagEntryModel>,
    context: TagContext,
    number: u16,
    ifd: u16,
)
    ensures
        match last_index(s, context, number, ifd) {
            Some(i) => 0 <= i < s.len() && has_key(s[i], context, number, ifd) && forall|j: int|
                i < j < s.len() ==> !has_key(#[trigger] s[j], context, number, ifd),
            None => forall|j: int|
                0 <= j < s.len() ==> !has_key(#[trigger] s[j], context, number, ifd),
        },
    decreases s.len(),
{
    if s.len() > 0 && !has_key(s.last(), context, number, ifd) {
        let t = s.drop_last();
        lemma_last_index_found(t, context, number, ifd);
        assert forall|j: int| 0 <= j < t.len() implies #[trigger] s[j] == t[j] by {}
    }
}

/// Finds the last entry with the given tag in the given directory.
pub fn find_entry(entries: &Vec<TagEntry>, context: TagContext, number: u16, ifd: u16) -> (r:
    Option<usize>)
    ensures
        match r {
            Some(i) => last_index(entry_models(entries@), context, number, ifd) == Some(i as int),
            None => last_index(entry_models(entries@), context, number, ifd) is None,
        },
        r is Some ==> r->0 < entries@.len(),
{
    let ghost s = entry_models(entries@);
    let mut found: Option<usize> = None;
    let mut i: usize = 0;
    while i < entries.len()
        invariant
            i <= entries@.len(),
            s == entry_models(entries@),
            match found {
                Some(k) => k < i && last_index(s.take(i as int), context, number, ifd) == Some(
                    k as int,
                ),
                None => last_index(s.take(i as int), context, number, ifd) is None,
            },
        decreases entries@.len() - i,
    {
        proof {
            assert(s.take(i + 1).drop_last() =~= s.take(i as int));
            assert(s.take(i + 1).last() == entries@[i as int]@);
        }
        let e = &entries[i];
        if e.context == context && e.number == number && e.ifd == ifd {
            found = Some(i);
        }
        i = i + 1;
    }
    proof {
        assert(s.take(i as int) =~= s);
    }
    found
}

/// Whether a text is exactly the given one.
fn text_is(text: &String, expected: &str) -> (b: bool)
    ensures
        b == (text@ == expected@),
{
    let other = expected.to_owned();
    *text == other
}

/// Decodes one coordinate from its value tag and its hemisphere tag.
pub fn parse_gps_coordinate(coord_field: &TagEntry, ref_field: &TagEntry) -> (r: Option<
    GpsCoordinate,
>)
    ensures
        r == coordinate(coord_field@, ref_field@),
{
    let is_negative = text_is(&ref_field.bare_value, "S") || text_is(&ref_field.bare_value, "W");
    match &coord_field.rationals {
        Some(rationals) => {
            if rationals.len() >= 3 {
                Some(
                    GpsCoordinate {
                        negative: is_negative,
                        degrees: rationals[0],
                        minutes: rationals[1],
                        seconds: rationals[2],
                    },
                )
            } else {
                None
            }
        },
        None => None,
    }
}

/// Resolves latitude and longitude from the four GPS tags of the primary
/// directory. Either both come back or neither.
pub fn resolve_position(entries: &Vec<TagEntry>) -> (r: Option<(GpsCoordinate, GpsCoordinate)>)
    ensures
        r == resolved_position(entry_models(entries@)),
{
    let lat = find_entry(entries, TagContext::Gps, GPS_LATITUDE, PRIMARY_IFD);
    let lat_ref = find_entry(entries, TagContext::Gps, GPS_LATITUDE_REF, PRIMARY_IFD);
    let lon = find_entry(entries, TagContext::Gps, GPS_LONGITUDE, PRIMARY_IFD);
    let lon_ref = find_entry(entries, TagContext::Gps, GPS_LONGITUDE_REF, PRIMARY_IFD);
    match (lat, lat_ref, lon, lon_ref) {
        (Some(a), Some(b), Some(c), Some(d)) => {
            let latitude = parse_gps_coordinate(&entries[a], &entries[b]);
            let longitude = parse_gps_coordinate(&entries[c], &entries[d]);
            match (latitude, longitude) {
                (Some(x), Some(y)) => Some((x, y)),
                _ => None,
            }
        },
        _ => None,
    }
}

/// Pairing law: where the primary directory lacks any one of the four GPS
/// tags, no position is resolved, whatever the other three hold.
pub proof fn lemma_position_needs_all_four(s: Seq<TagEntryModel>)
    requires
        (forall|j: int|
            0 <= j < s.len() ==> !has_key(#[trigger] s[j], TagContext::Gps, GPS_LATITUDE, PRIMARY_IFD))
            || (forall|j: int|
            0 <= j < s.len() ==> !has_key(
                #[trigger] s[j],
                TagContext::Gps,
                GPS_LATITUDE_REF,
                PRIMARY_IFD,
            )) || (forall|j: int|
            0 <= j < s.len() ==> !has_key(
                #[trigger] s[j],
                TagContext::Gps,
                GPS_LONGITUDE,
                PRIMARY_IFD,
            )) || (forall|j: int|
            0 <= j < s.len() ==> !has_key(
                #[trigger] s[j],
                TagContext::Gps,
                GPS_LONGITUDE_REF,
                PRIMARY_IFD,
            )),
    ensures
        resolved_position(s) is None,
{
    lemma_last_index_found(s, TagContext::Gps, GPS_LATITUDE, PRIMARY_IFD);
    lemma_last_index_found(s, TagContext::Gps, GPS_LATITUDE_REF, PRIMARY_IFD);
    lemma_last_index_found(s, TagContext::Gps, GPS_LONGITUDE, PRIMARY_IFD);
    lemma_last_index_found(s, TagContext::Gps, GPS_LONGITUDE_REF, PRIMARY_IFD);
}

} // verus!
