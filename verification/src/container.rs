//! Reading the metadata container embedded in an image.
//!
//! The parsing itself is done by the `exif` crate. What it returns is named
//! here and taken on trust; turning a parsed container into a run of
//! `TagEntry` values is verified against those names.

use vstd::prelude::*;
use crate::tags::{entry_models, fractions, Rational, TagContext, TagEntry, TagEntryModel};

verus! {

#[verifier::external_type_specification]
#[verifier::external_body]
pub struct ExExif(exif::Exif);

/// The tags that `exif::Reader::read_from_container` finds in a buffer, in
/// the order in which `exif::Exif::fields` walks them, or `None` where it
/// reports an error.
pub uninterp spec fn container_entries(data: Seq<u8>) -> Option<Seq<TagEntryModel>>;

/// The fields of a parsed container, in the order of `exif::Exif::fields`,
/// each as the plain values that the readers below copy out of it.
pub uninterp spec fn exif_entries(exif: exif::Exif) -> Seq<TagEntryModel>;

/// Calls `exif::Reader::read_from_container` on the buffer. Trusted: parsing
/// depends on the bytes alone, and an error stands for an absent container.
#[verifier::external_body]
pub(crate) fn parse_container(data: &[u8]) -> (r: Option<exif::Exif>)
    ensures
        match r {
            Some(x) => container_entries(data@) == Some(exif_entries(x)),
            None => container_entries(data@) is None,
        },
{
    exif::Reader::new().read_from_container(&mut std::io::Cursor::new(data)).ok()
}

/// Reads `tag` and `ifd_num` of every field that `exif::Exif::fields`
/// yields. Trusted: there is one triple per field, in traversal order, of the
/// tag's context, the tag's number and the directory index.
#[verifier::external_body]
pub(crate) fn field_keys(exif: &exif::Exif) -> (keys: Vec<(TagContext, u16, u16)>)
    ensures
        keys@.len() == exif_entries(*exif).len(),
        forall|i: int|
            0 <= i < keys@.len() ==> #[trigger] keys@[i] == (
                exif_entries(*exif)[i].context,
                exif_entries(*exif)[i].number,
                exif_entries(*exif)[i].ifd,
            ),
{
    exif.fields().map(|f| {
        let context = match f.tag.0 {
            exif::Context::Tiff => TagContext::Tiff,
            exif::Context::Exif => TagContext::Exif,
            exif::Context::Gps => TagContext::Gps,
            exif::Context::Interop => TagContext::Interop,
            _ => TagContext::Other,
        };
        (context, f.tag.1, f.ifd_num.0)
    }).collect()
}

/// Formats `tag` of every field with `exif::Tag`'s `Debug`. Trusted: there
/// is one text per field, in traversal order: the model's machine name.
#[verifier::external_body]
pub(crate) fn field_names(exif: &exif::Exif) -> (names: Vec<String>)
    ensures
        names@.len() == exif_entries(*exif).len(),
        forall|i: int|
            0 <= i < names@.len() ==> (#[trigger] names@[i])@ == exif_entries(*exif)[i].name,
{
    exif.fields().map(|f| format!("{:?}", f.tag)).collect()
}

/// Formats `exif::Field::display_value` of every field, with the unit that
/// `with_unit` looks up in the same container. Trusted: there is one text per
/// field, in traversal order: the model's display value.
#[verifier::external_body]
pub(crate) fn field_values(exif: &exif::Exif) -> (values: Vec<String>)
    ensures
        values@.len() == exif_entries(*exif).len(),
        forall|i: int|
            0 <= i < values@.len() ==> (#[trigger] values@[i])@ == exif_entries(*exif)[i].value,
{
    exif.fields().map(|f| format!("{}", f.display_value().with_unit(exif))).collect()
}

/// Formats `exif::Field::display_value` of every field, without a unit.
/// Trusted: there is one text per field, in traversal order: the model's
/// bare display value.
#[verifier::external_body]
pub(crate) fn field_bare_values(exif: &exif::Exif) -> (values: Vec<String>)
    ensures
        values@.len() == exif_entries(*exif).len(),
        forall|i: int|
            0 <= i < values@.len() ==> (#[trigger] values@[i])@ == exif_entries(
                *exif,
            )[i].bare_value,
{
    exif.fields().map(|f| format!("{}", f.display_value())).collect()
}

/// Calls `exif::Value::get_uint(0)` on every field. Trusted: there is one
/// result per field, in traversal order: the model's first unsigned integer,
/// absent where the value is of another type or empty.
#[verifier::external_body]
pub(crate) fn field_uints(exif: &exif::Exif) -> (uints: Vec<Option<u32>>)
    ensures
        uints@.len() == exif_entries(*exif).len(),
        forall|i: int|
            0 <= i < uints@.len() ==> #[trigger] uints@[i] == exif_entries(*exif)[i].uint,
{
    exif.fields().map(|f| f.value.get_uint(0)).collect()
}

/// Copies the components of every field whose value is the variant
/// `exif::Value::Rational`. Trusted: there is one result per field, in
/// traversal order: the model's fractions, absent for every other variant.
#[verifier::external_body]
pub(crate) fn field_rationals(exif: &exif::Exif) -> (rationals: Vec<Option<Vec<Rational>>>)
    ensures
        rationals@.len() == exif_entries(*exif).len(),
        forall|i: int|
            0 <= i < rationals@.len() ==> fractions(#[trigger] rationals@[i]) == exif_entries(
                *exif,
            )[i].rationals,
{
    exif.fields().map(|f| match f.value {
        exif::Value::Rational(ref v) => Some(
            v.iter().map(|q| Rational { num: q.num, denom: q.denom }).collect(),
        ),
        _ => None,
    }).collect()
}

/// A copy of an optional run of fractions.
fn copy_fractions(source: &Option<Vec<Rational>>) -> (copy: Option<Vec<Rational>>)
    ensures
        fractions(copy) == fractions(*source),
{
    match source {
        Some(v) => {
            let mut out: Vec<Rational> = Vec::new();
            let mut i: usize = 0;
            while i < v.len()
                invariant
                    i <= v@.len(),
                    out@ == v@.take(i as int),
                decreases v@.len() - i,
            {
                out.push(v[i]);
                proof {
                    assert(v@.take(i + 1) =~= v@.take(i as int).push(v@[i as int]));
                }
                i = i + 1;
            }
            proof {
                assert(v@.take(i as int) =~= v@);
            }
            Some(out)
        },
        None => None,
    }
}

/// Reads every field of a parsed container, in traversal order.
pub(crate) fn collect_entries(exif: &exif::Exif) -> (entries: Vec<TagEntry>)
    ensures
        entry_models(entries@) == exif_entries(*exif),
{
    let keys = field_keys(exif);
    let names = field_names(exif);
    let values = field_values(exif);
    let bare_values = field_bare_values(exif);
    let uints = field_uints(exif);
    let rationals = field_rationals(exif);
    let n = keys.len();
    let mut entries: Vec<TagEntry> = Vec::new();
    let mut i: usize = 0;
    while i < n
        invariant
            i <= n,
            n == exif_entries(*exif).len(),
            keys@.len() == n,
            names@.len() == n,
            values@.len() == n,
            bare_values@.len() == n,
            uints@.len() == n,
            rationals@.len() == n,
            forall|j: int|
                0 <= j < n ==> #[trigger] keys@[j] == (
                    exif_entries(*exif)[j].context,
                    exif_entries(*exif)[j].number,
                    exif_entries(*exif)[j].ifd,
                ),
            forall|j: int| 0 <= j < n ==> (#[trigger] names@[j])@ == exif_entries(*exif)[j].name,
            forall|j: int| 0 <= j < n ==> (#[trigger] values@[j])@ == exif_entries(*exif)[j].value,
            forall|j: int|
                0 <= j < n ==> (#[trigger] bare_values@[j])@ == exif_entries(*exif)[j].bare_value,
            forall|j: int| 0 <= j < n ==> #[trigger] uints@[j] == exif_entries(*exif)[j].uint,
            forall|j: int|
                0 <= j < n ==> fractions(#[trigger] rationals@[j]) == exif_entries(
                    *exif,
                )[j].rationals,
            entries@.len() == i,
            forall|j: int| 0 <= j < i ==> (#[trigger] entries@[j])@ == exif_entries(*exif)[j],
        decreases n - i,
    {
        let (context, number, ifd) = keys[i];
        let entry = TagEntry {
            context,
            number,
            ifd,
            name: names[i].clone(),
            value: values[i].clone(),
            bare_value: bare_values[i].clone(),
            uint: uints[i],
            rationals: copy_fractions(&rationals[i]),
        };
        entries.push(entry);
        i = i + 1;
    }
    proof {
        assert(entry_models(entries@) =~= exif_entries(*exif));
    }
    entries
}

/// Looks for a metadata container in an image buffer and reads its tags in
/// traversal order. `None` means that no container was found.
pub fn read_entries(data: &[u8]) -> (r: Option<Vec<TagEntry>>)
    ensures
        match r {
            Some(v) => container_entries(data@) == Some(entry_models(v@)),
            None => container_entries(data@) is None,
        },
{
    match parse_container(data) {
        Some(exif) => Some(collect_entries(&exif)),
        None => None,
    }
}

} // verus!
