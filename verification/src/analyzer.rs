//! The analyzer: runs the extraction on an image buffer and keeps the most
//! recent record.

use vstd::prelude::*;
use crate::container::{container_entries, read_entries};
use crate::record::{empty_record, extracted, ImageMetadata, MetadataModel};

verus! {

/// Which stages of an analysis run. Only `extract_metadata` has an effect
/// on the record; the other two are kept for the caller.
#[derive(Clone, Copy, Debug, PartialEq, Eq, Structural)]
pub struct AnalysisOptions {
    pub extract_metadata: bool,
    pub reverse_image_search: bool,
    pub plot_coordinates: bool,
}

/// Why the analyzer has nothing to return.
#[derive(Clone, Copy, Debug, PartialEq, Eq, Structural)]
pub enum AnalyzerError {
    /// No image has been analyzed yet.
    NoMetadata,
}

impl AnalyzerError {
    /// The message shown to the caller.
    pub fn message(&self) -> (r: String)
        ensures
            r@ == "No metadata available"@,
    {
        "No metadata available".to_owned()
    }
}

/// The answer of the reverse image search, which is not implemented.
#[derive(Debug)]
pub struct SearchStatus {
    pub status: String,
    pub message: String,
}

/// The record that an analysis gives of a buffer and of the pixel size that
/// was decoded from it: empty unless extraction is switched on.
pub open spec fn analysis(
    data: Seq<u8>,
    dimensions: Option<(u32, u32)>,
    options: AnalysisOptions,
) -> MetadataModel {
    if options.extract_metadata {
        extracted(empty_record(), dimensions, container_entries(data))
    } else {
        empty_record()
    }
}

/// What asking for the stored record gives.
pub open spec fn retrieved(stored: Option<MetadataModel>) -> Result<MetadataModel, AnalyzerError> {
    match stored {
        Some(record) => Ok(record),
        None => Err(AnalyzerError::NoMetadata),
    }
}

/// Owner of the most recent record.
pub struct ImageAnalyzer {
    metadata: Option<ImageMetadata>,
}

impl ImageAnalyzer {
    /// The record that is stored, if any.
    pub closed spec fn stored(&self) -> Option<MetadataModel> {
        match self.metadata {
            Some(record) => Some(record@),
            None => None,
        }
    }

    /// An analyzer that has stored nothing yet.
    pub fn new() -> (analyzer: ImageAnalyzer)
        ensures
            analyzer.stored() is None,
    {
        ImageAnalyzer { metadata: None }
    }

    /// Analyzes an image buffer, stores the record in place of the previous
    /// one and returns it. `dimensions` is the pixel width and height that
    /// the caller's decoder found in the buffer, or `None` where it found
    /// none.
    pub fn analyze_image(
        &mut self,
        image_data: &[u8],
        dimensions: Option<(u32, u32)>,
        options: &AnalysisOptions,
    ) -> (record: ImageMetadata)
        ensures
            record@ == analysis(image_data@, dimensions, *options),
            final(self).stored() == Some(record@),
    {
        let mut metadata = ImageMetadata::empty();
        if options.extract_metadata {
            self.extract_metadata(image_data, dimensions, &mut metadata);
        }
        self.metadata = Some(metadata.clone());
        metadata
    }

    /// Adds to a record what is known of an image: its pixel size, where
    /// one was decoded, and the tags of the metadata container in the
    /// buffer, where it has one. Neither absence is an error.
    pub fn extract_metadata(
        &self,
        image_data: &[u8],
        dimensions: Option<(u32, u32)>,
        metadata: &mut ImageMetadata,
    )
        ensures
            final(metadata)@ == extracted(
                old(metadata)@,
                dimensions,
                container_entries(image_data@),
            ),
    {
        let container = read_entries(image_data);
        metadata.record_image(dimensions, &container);
    }

    /// The stored record, or `NoMetadata` where no analysis has run yet.
    pub fn get_metadata(&self) -> (r: Result<ImageMetadata, AnalyzerError>)
        ensures
            match r {
                Ok(record) => retrieved(self.stored()) == Ok::<MetadataModel, AnalyzerError>(
                    record@,
                ),
                Err(e) => retrieved(self.stored()) == Err::<MetadataModel, AnalyzerError>(e),
            },
    {
        match &self.metadata {
            Some(record) => Ok(record.clone()),
            None => Err(AnalyzerError::NoMetadata),
        }
    }

    /// Always answers that the search is not implemented, whatever the
    /// buffer holds.
    pub fn reverse_image_search(&self, _image_data: &[u8]) -> (r: SearchStatus)
        ensures
            r.status@ == "not_implemented"@,
            r.message@ == "Reverse image search requires external API integration"@,
    {
        SearchStatus {
            status: "not_implemented".to_owned(),
            message: "Reverse image search requires external API integration".to_owned(),
        }
    }
}

} // verus!
