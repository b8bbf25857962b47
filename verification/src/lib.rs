//! Photo metadata extraction: the tags of an image's embedded metadata
//! container are mapped to a normalized record, and its GPS position is
//! decoded from the paired coordinate and hemisphere tags.

pub mod tags;
pub mod container;
pub mod gps;
pub mod record;
pub mod analyzer;
pub mod laws;

pub use analyzer::{AnalysisOptions, AnalyzerError, ImageAnalyzer, SearchStatus};
pub use gps::GpsCoordinate;
pub use record::{ImageMetadata, MetadataField};
pub use tags::{Rational, TagContext, TagEntry, TagKind};
