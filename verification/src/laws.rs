//! Laws of the extraction, stated over the models and proved.

use vstd::prelude::*;
use crate::analyzer::{analysis, retrieved, AnalysisOptions, AnalyzerError};
use crate::container::container_entries;
use crate::gps::resolved_position;
use crate::record::{
    empty_record, extracted, first_date, last_orientation, last_value, low_16, orientation_of,
    positioned, raw_fields, sized, swept, FieldModel, MetadataModel,
};
use crate::tags::{is_date, TagEntryModel, TagKind, PRIMARY_IFD};

verus! {

/// A buffer from which no pixel size was decoded and which holds no
/// metadata container gives the empty record: no scalar is set and no raw
/// field is listed.
pub proof fn lemma_unreadable_buffer_gives_empty_record(data: Seq<u8>, options: AnalysisOptions)
    requires
        container_entries(data) is None,
    ensures
        analysis(data, None, options) == empty_record(),
{
}

/// The raw field list of an extraction holds exactly one field per tag of
/// the container, in traversal order, whichever of them also set a scalar.
pub proof fn lemma_raw_fields_mirror_container(
    dimensions: Option<(u32, u32)>,
    s: Seq<TagEntryModel>,
)
    ensures
        extracted(empty_record(), dimensions, Some(s)).all_fields.len() == s.len(),
        forall|i: int|
            0 <= i < s.len() ==> #[trigger] extracted(
                empty_record(),
                dimensions,
                Some(s),
            ).all_fields[i] == (FieldModel { tag: s[i].name, value: s[i].value }),
{
    let swept_record = swept(sized(empty_record(), dimensions), s);
    assert(swept_record.all_fields =~= raw_fields(s));
    assert(positioned(swept_record, s).all_fields == swept_record.all_fields);
}

/// Where no entry is a date tag, no date is found.
pub proof fn lemma_no_date(s: Seq<TagEntryModel>)
    requires
        forall|j: int| 0 <= j < s.len() ==> !is_date(#[trigger] s[j].kind()),
    ensures
        first_date(s) is None,
    decreases s.len(),
{
    if s.len() > 0 {
        let t = s.drop_last();
        assert forall|j: int| 0 <= j < t.len() implies !is_date(#[trigger] t[j].kind()) by {
            assert(t[j] == s[j]);
        }
        lemma_no_date(t);
    }
}

/// First match wins among the date tags: where a record holds no date yet,
/// its date after a pass is the display value of the first entry that is
/// any of the three date tags, whatever follows it.
pub proof fn lemma_first_date_wins(old: MetadataModel, s: Seq<TagEntryModel>, i: int)
    requires
        old.date_taken is None,
        0 <= i < s.len(),
        is_date(s[i].kind()),
        forall|j: int| 0 <= j < i ==> !is_date(#[trigger] s[j].kind()),
    ensures
        first_date(s) == Some(s[i].value),
        swept(old, s).date_taken == Some(s[i].value),
    decreases s.len(),
{
    let t = s.drop_last();
    if i == s.len() - 1 {
        assert forall|j: int| 0 <= j < t.len() implies !is_date(#[trigger] t[j].kind()) by {
            assert(t[j] == s[j]);
        }
        lemma_no_date(t);
    } else {
        assert(t[i] == s[i]);
        assert forall|j: int| 0 <= j < i implies !is_date(#[trigger] t[j].kind()) by {
            assert(t[j] == s[j]);
        }
        lemma_first_date_wins(old, t, i);
    }
}

/// A date that a record holds already is kept, whatever the entries hold.
pub proof fn lemma_date_is_kept(old: MetadataModel, s: Seq<TagEntryModel>)
    requires
        old.date_taken is Some,
    ensures
        swept(old, s).date_taken == old.date_taken,
{
}

/// Last seen wins for make, model, software, exposure time, f-number and
/// focal length: the scalar is the display value of the last entry of its
/// kind, whatever the record held and whatever came before.
pub proof fn lemma_last_value_wins(s: Seq<TagEntryModel>, kind: TagKind, i: int)
    requires
        0 <= i < s.len(),
        s[i].kind() == kind,
        forall|j: int| i < j < s.len() ==> (#[trigger] s[j]).kind() != kind,
    ensures
        last_value(s, kind) == Some(s[i].value),
    decreases s.len(),
{
    if s.last().kind() != kind {
        let t = s.drop_last();
        assert(t[i] == s[i]);
        assert forall|j: int| i < j < t.len() implies (#[trigger] t[j]).kind() != kind by {
            assert(t[j] == s[j]);
        }
        lemma_last_value_wins(t, kind, i);
    } else if i < s.len() - 1 {
        assert(s[s.len() - 1].kind() != kind);
    }
}

/// The camera make of a record is that of the last make tag.
pub proof fn lemma_last_make_wins(old: MetadataModel, s: Seq<TagEntryModel>, i: int)
    requires
        0 <= i < s.len(),
        s[i].kind() == TagKind::Make,
        forall|j: int| i < j < s.len() ==> (#[trigger] s[j]).kind() != TagKind::Make,
    ensures
        swept(old, s).camera_make == Some(s[i].value),
{
    lemma_last_value_wins(s, TagKind::Make, i);
}

/// Latitude and longitude of an extraction are set together or not at all,
/// and they are set exactly where the container resolves to a position.
pub proof fn lemma_position_is_paired(
    dimensions: Option<(u32, u32)>,
    container: Option<Seq<TagEntryModel>>,
)
    ensures
        extracted(empty_record(), dimensions, container).gps_latitude is Some <==> extracted(
            empty_record(),
            dimensions,
            container,
        ).gps_longitude is Some,
        extracted(empty_record(), dimensions, container).gps_latitude is Some <==> (container
            is Some && resolved_position(container->0) is Some),
{
}

/// Orientation tags outside the primary directory set no orientation:
/// where every orientation tag of a run sits in another directory, the
/// pass leaves the orientation as it was.
pub proof fn lemma_thumbnail_orientation_ignored(old: MetadataModel, s: Seq<TagEntryModel>)
    requires
        forall|j: int|
            0 <= j < s.len() && (#[trigger] s[j]).kind() == TagKind::Orientation ==> s[j].ifd
                != PRIMARY_IFD,
    ensures
        last_orientation(s) is None,
        swept(old, s).orientation == old.orientation,
    decreases s.len(),
{
    if s.len() > 0 {
        let t = s.drop_last();
        assert forall|j: int|
            0 <= j < t.len() && (#[trigger] t[j]).kind() == TagKind::Orientation implies t[j].ifd
            != PRIMARY_IFD by {
            assert(t[j] == s[j]);
        }
        lemma_thumbnail_orientation_ignored(old, t);
        assert(orientation_of(s.last()) is None);
    }
}

/// An orientation tag of the primary directory with an unsigned integer
/// value sets the orientation to the low 16 bits of that value, unless a
/// later entry sets it again.
pub proof fn lemma_primary_orientation_set(old: MetadataModel, s: Seq<TagEntryModel>, i: int)
    requires
        0 <= i < s.len(),
        s[i].kind() == TagKind::Orientation,
        s[i].ifd == PRIMARY_IFD,
        s[i].uint is Some,
        forall|j: int| i < j < s.len() ==> orientation_of(#[trigger] s[j]) is None,
    ensures
        swept(old, s).orientation == Some(low_16(s[i].uint->0)),
    decreases s.len(),
{
    if i < s.len() - 1 {
        let t = s.drop_last();
        assert(t[i] == s[i]);
        assert forall|j: int| i < j < t.len() implies orientation_of(#[trigger] t[j]) is None by {
            assert(t[j] == s[j]);
        }
        lemma_primary_orientation_set(old, t, i);
        assert(orientation_of(s[s.len() - 1]) is None);
    }
}

/// Extraction differs from the pass over the container in latitude and
/// longitude alone.
pub proof fn lemma_extraction_keeps_swept_scalars(
    old: MetadataModel,
    dimensions: Option<(u32, u32)>,
    s: Seq<TagEntryModel>,
)
    ensures
        extracted(old, dimensions, Some(s)) == (MetadataModel {
            gps_latitude: extracted(old, dimensions, Some(s)).gps_latitude,
            gps_longitude: extracted(old, dimensions, Some(s)).gps_longitude,
            ..swept(sized(old, dimensions), s)
        }),
        extracted(old, dimensions, Some(s)).width == sized(old, dimensions).width,
        extracted(old, dimensions, Some(s)).height == sized(old, dimensions).height,
{
}

/// Before any analysis nothing can be retrieved; after one, what is
/// retrieved is the record that the analysis returned.
pub proof fn lemma_retrieve_follows_analysis(
    data: Seq<u8>,
    dimensions: Option<(u32, u32)>,
    options: AnalysisOptions,
)
    ensures
        retrieved(None) == Err::<MetadataModel, AnalyzerError>(AnalyzerError::NoMetadata),
        retrieved(Some(analysis(data, dimensions, options))) == Ok::<MetadataModel, AnalyzerError>(
            analysis(data, dimensions, options),
        ),
{
}

} // verus!
