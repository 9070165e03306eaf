//! Mapping between the rows of a metastore's relational schema and its
//! in-memory domain model for indexes and splits.
//!
//! Timestamps live twice: in dedicated columns and inside each row's JSON
//! metadata document. The columns are authoritative, and every mapping from a
//! row to a domain object takes its timestamps from them.

pub mod error;
pub mod existence;
pub mod index;
pub mod json;
pub mod split;
pub mod timestamp;

pub use error::{DecodeCause, DeserializationError};
pub use existence::{resolve_split_existence, IndexIdSplitIdRow, SplitExistence, SELECT_SPLITS_FOR_INDEX};
pub use index::{decode_index_metadata, reconcile_index_timestamps, Index, IndexMetadata};
pub use split::{
    decode_split_metadata, reconcile_split_timestamp, MetastoreSplit, Split, SplitMetadata,
    SplitState,
};
pub use timestamp::Timestamp;
