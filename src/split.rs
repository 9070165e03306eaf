use vstd::prelude::*;
use vstd::string::*;

use crate::error::{
    split_metadata_failure, split_metadata_failure_message, split_state_failure,
    split_state_failure_message, DecodeCause, DeserializationError,
};
use crate::json::{
    check_document, i64_member, is_missing_field, json_i64_member, json_str_member, json_u64_member,
    json_well_formed, string_member, u64_member,
};
use crate::timestamp::{lemma_timestamp_round_trip, timestamp_of_seconds, Timestamp};

verus! {

/// The lifecycle state of a split.
#[derive(Debug, Clone, Copy, PartialEq, Eq, Structural)]
pub enum SplitState {
    /// Registered, but not yet part of a published view. The initial state.
    Staged,
    /// Visible to queries.
    Published,
    /// Excluded from queries and awaiting physical removal.
    MarkedForDeletion,
}

/// The state that the column value `name` stands for, if any.
pub open spec fn state_of_name(name: Seq<char>) -> Option<SplitState> {
    if name == "Staged"@ {
        Some(SplitState::Staged)
    } else if name == "Published"@ {
        Some(SplitState::Published)
    } else if name == "MarkedForDeletion"@ {
        Some(SplitState::MarkedForDeletion)
    } else {
        None
    }
}

impl SplitState {
    /// The column value that stands for this state.
    pub open spec fn name(self) -> Seq<char> {
        match self {
            SplitState::Staged => "Staged"@,
            SplitState::Published => "Published"@,
            SplitState::MarkedForDeletion => "MarkedForDeletion"@,
        }
    }

    /// Reads a state from its column value. Any other text names no state.
    pub fn parse(name: &str) -> (r: Option<SplitState>)
        ensures
            r == state_of_name(name@),
    {
        let name = String::from_str(name);
        if name == String::from_str("Staged") {
            Some(SplitState::Staged)
        } else if name == String::from_str("Published") {
            Some(SplitState::Published)
        } else if name == String::from_str("MarkedForDeletion") {
            Some(SplitState::MarkedForDeletion)
        } else {
            None
        }
    }

    /// The column value that stands for this state.
    pub fn as_str(&self) -> (r: &'static str)
        ensures
            r@ == self.name(),
    {
        match self {
            SplitState::Staged => "Staged",
            SplitState::Published => "Published",
            SplitState::MarkedForDeletion => "MarkedForDeletion",
        }
    }
}

/// Reading the column value of a state gives that state back.
pub proof fn lemma_state_name_round_trip(state: SplitState)
    ensures
        state_of_name(state.name()) == Some(state),
{
    reveal_strlit("Staged");
    reveal_strlit("Published");
    reveal_strlit("MarkedForDeletion");
    assert("Staged"@.len() == 6);
    assert("Published"@.len() == 9);
    assert("MarkedForDeletion"@.len() == 17);
}

/// The domain metadata of a split, as held in memory.
#[derive(Debug, Clone, PartialEq, Eq)]
pub struct SplitMetadata {
    pub split_id: String,
    pub num_docs: u64,
    pub original_size_in_bytes: u64,
    /// Seconds since the Unix epoch at which the split was created.
    pub create_timestamp: i64,
}

/// A split as the metastore hands it out: its metadata, its lifecycle state
/// and when it was last updated.
#[derive(Debug, Clone, PartialEq, Eq)]
pub struct MetastoreSplit {
    pub split_metadata: SplitMetadata,
    pub split_state: SplitState,
    /// Seconds since the Unix epoch at which the split was last updated.
    pub update_timestamp: i64,
}

/// A row of the `splits` table.
#[derive(Debug, Clone)]
pub struct Split {
    pub split_id: String,
    /// The state of the split. With `update_timestamp`, this is the only
    /// mutable attribute of the split.
    pub split_state: String,
    /// If a timestamp field is available, the min timestamp of the split.
    pub time_range_start: Option<i64>,
    /// If a timestamp field is available, the max timestamp of the split.
    pub time_range_end: Option<i64>,
    /// When the split was created; this column is authoritative.
    pub create_timestamp: Timestamp,
    /// When the split was last updated; this column is authoritative.
    pub update_timestamp: Timestamp,
    /// Tags for categorizing and searching groups of splits.
    pub tags: Vec<String>,
    /// The split's metadata as a JSON document.
    pub split_metadata_json: String,
    /// The index that the split belongs to.
    pub index_id: String,
}

/// `metadata` with its creation timestamp taken from the column.
pub open spec fn reconciled_split(metadata: SplitMetadata, create_timestamp: Timestamp) -> SplitMetadata {
    SplitMetadata {
        split_id: metadata.split_id,
        num_docs: metadata.num_docs,
        original_size_in_bytes: metadata.original_size_in_bytes,
        create_timestamp: create_timestamp.seconds() as i64,
    }
}

/// Overwrites the creation timestamp embedded in decoded split metadata with
/// the authoritative column value. No other field changes.
pub fn reconcile_split_timestamp(metadata: SplitMetadata, create_timestamp: &Timestamp) -> (r:
    SplitMetadata)
    requires
        create_timestamp.wf(),
    ensures
        r == reconciled_split(metadata, *create_timestamp),
{
    let mut metadata = metadata;
    metadata.create_timestamp = create_timestamp.timestamp();
    metadata
}

/// The split metadata document `blob` holds every member that split
/// metadata is made of.
pub open spec fn split_blob_decodes(blob: Seq<char>) -> bool {
    &&& json_well_formed(blob)
    &&& json_str_member(blob, "split_id"@) is Some
    &&& json_u64_member(blob, "num_docs"@) is Some
    &&& json_u64_member(blob, "original_size_in_bytes"@) is Some
    &&& json_i64_member(blob, "create_timestamp"@) is Some
}

/// The fields of `m` other than its creation timestamp are those that `blob`
/// holds.
pub open spec fn split_fields_of(blob: Seq<char>, m: SplitMetadata) -> bool {
    &&& json_str_member(blob, "split_id"@) == Some(m.split_id@)
    &&& json_u64_member(blob, "num_docs"@) == Some(m.num_docs)
    &&& json_u64_member(blob, "original_size_in_bytes"@) == Some(m.original_size_in_bytes)
}

/// `m` is the split metadata that `blob` holds, creation timestamp included.
pub open spec fn split_decoded_from(blob: Seq<char>, m: SplitMetadata) -> bool {
    &&& split_fields_of(blob, m)
    &&& json_i64_member(blob, "create_timestamp"@) == Some(m.create_timestamp)
}

/// The first member, in decoding order, that `blob` lacks.
pub open spec fn first_missing_split_member(blob: Seq<char>) -> Seq<char> {
    if json_str_member(blob, "split_id"@) is None {
        "split_id"@
    } else if json_u64_member(blob, "num_docs"@) is None {
        "num_docs"@
    } else if json_u64_member(blob, "original_size_in_bytes"@) is None {
        "original_size_in_bytes"@
    } else {
        "create_timestamp"@
    }
}

/// `c` is the cause reported when `blob` does not decode as split metadata:
/// malformed JSON, or else the first member that it lacks.
pub open spec fn split_decode_cause(blob: Seq<char>, c: DecodeCause) -> bool {
    if json_well_formed(blob) {
        is_missing_field(c, first_missing_split_member(blob))
    } else {
        c is MalformedJson
    }
}

/// Decodes split metadata from its JSON document.
pub fn decode_split_metadata(blob: &str) -> (r: Result<SplitMetadata, DecodeCause>)
    ensures
        r is Ok <==> split_blob_decodes(blob@),
        r matches Ok(m) ==> split_decoded_from(blob@, m),
        r matches Err(c) ==> split_decode_cause(blob@, c),
{
    match check_document(blob) {
        Ok(()) => {},
        Err(c) => return Err(c),
    }
    let split_id = match string_member(blob, "split_id") {
        Ok(v) => v,
        Err(c) => return Err(c),
    };
    let num_docs = match u64_member(blob, "num_docs") {
        Ok(v) => v,
        Err(c) => return Err(c),
    };
    let original_size_in_bytes = match u64_member(blob, "original_size_in_bytes") {
        Ok(v) => v,
        Err(c) => return Err(c),
    };
    let create_timestamp = match i64_member(blob, "create_timestamp") {
        Ok(v) => v,
        Err(c) => return Err(c),
    };
    Ok(SplitMetadata { split_id, num_docs, original_size_in_bytes, create_timestamp })
}

impl Split {
    pub open spec fn wf(self) -> bool {
        self.create_timestamp.wf() && self.update_timestamp.wf()
    }

    /// Whether `e` reports that the metadata blob of this row failed to decode
    /// with `cause`.
    pub open spec fn is_metadata_failure(self, e: DeserializationError, cause: DecodeCause) -> bool {
        &&& e.cause == cause
        &&& e.message@ == split_metadata_failure_message(self.index_id@, self.split_id@)
    }

    /// Whether `e` reports that the state column of this row names no state.
    pub open spec fn is_state_failure(self, e: DeserializationError) -> bool {
        &&& e.cause matches DecodeCause::UnknownSplitState { value } && value@ == self.split_state@
        &&& e.message@ == split_state_failure_message(
            self.split_state@,
            self.index_id@,
            self.split_id@,
        )
    }

    /// `s` holds the members of this row's blob and its decoded state, with
    /// the timestamps of its columns.
    pub open spec fn maps_to(self, s: MetastoreSplit) -> bool {
        &&& split_fields_of(self.split_metadata_json@, s.split_metadata)
        &&& s.split_metadata.create_timestamp == self.create_timestamp.seconds()
        &&& s.update_timestamp == self.update_timestamp.seconds()
        &&& Some(s.split_state) == state_of_name(self.split_state@)
    }

    /// Whether `r` is what this row maps to when its blob decodes to `decoded`.
    /// A metadata failure is reported before a state failure.
    pub open spec fn split_outcome(
        self,
        decoded: Result<SplitMetadata, DecodeCause>,
        r: Result<MetastoreSplit, DeserializationError>,
    ) -> bool {
        match decoded {
            Err(c) => r matches Err(e) && self.is_metadata_failure(e, c),
            Ok(d) => match state_of_name(self.split_state@) {
                None => r matches Err(e) && self.is_state_failure(e),
                Some(state) => r == Ok::<MetastoreSplit, DeserializationError>(
                    MetastoreSplit {
                        split_metadata: reconciled_split(d, self.create_timestamp),
                        split_state: state,
                        update_timestamp: self.update_timestamp.seconds() as i64,
                    },
                ),
            },
        }
    }

    /// Whether `e` reports that the metadata blob of this row does not decode.
    pub open spec fn is_blob_failure(self, e: DeserializationError) -> bool {
        &&& e.message@ == split_metadata_failure_message(self.index_id@, self.split_id@)
        &&& split_decode_cause(self.split_metadata_json@, e.cause)
    }

    /// Deserializes and returns the split's metadata, as its blob holds it.
    pub fn split_metadata(&self) -> (r: Result<SplitMetadata, DeserializationError>)
        ensures
            r is Ok <==> split_blob_decodes(self.split_metadata_json@),
            r matches Ok(m) ==> split_decoded_from(self.split_metadata_json@, m),
            r matches Err(e) ==> self.is_blob_failure(e),
    {
        match decode_split_metadata(self.split_metadata_json.as_str()) {
            Ok(metadata) => Ok(metadata),
            Err(cause) => Err(
                split_metadata_failure(self.index_id.as_str(), self.split_id.as_str(), cause),
            ),
        }
    }

    /// Deserializes and returns the split's state.
    pub fn split_state(&self) -> (r: Result<SplitState, DeserializationError>)
        ensures
            match state_of_name(self.split_state@) {
                Some(state) => r == Ok::<SplitState, DeserializationError>(state),
                None => r matches Err(e) && self.is_state_failure(e),
            },
    {
        match SplitState::parse(self.split_state.as_str()) {
            Some(state) => Ok(state),
            None => Err(
                split_state_failure(
                    self.split_state.as_str(),
                    self.index_id.as_str(),
                    self.split_id.as_str(),
                ),
            ),
        }
    }

    /// Maps this row to a split, given what its blob decoded to.
    pub fn split_from_decoded(&self, decoded: Result<SplitMetadata, DecodeCause>) -> (r: Result<
        MetastoreSplit,
        DeserializationError,
    >)
        requires
            self.wf(),
        ensures
            self.split_outcome(decoded, r),
    {
        let metadata = match decoded {
            Ok(metadata) => metadata,
            Err(cause) => {
                return Err(
                    split_metadata_failure(self.index_id.as_str(), self.split_id.as_str(), cause),
                );
            },
        };
        let split_metadata = reconcile_split_timestamp(metadata, &self.create_timestamp);
        let split_state = match self.split_state() {
            Ok(state) => state,
            Err(e) => return Err(e),
        };
        let update_timestamp = self.update_timestamp.timestamp();
        Ok(MetastoreSplit { split_metadata, split_state, update_timestamp })
    }

    /// Maps this row to a split: its decoded metadata with the creation
    /// timestamp of the column, its decoded state, and the update timestamp
    /// of the column.
    pub fn try_into(self) -> (r: Result<MetastoreSplit, DeserializationError>)
        requires
            self.wf(),
        ensures
            r is Ok <==> split_blob_decodes(self.split_metadata_json@) && state_of_name(
                self.split_state@,
            ) is Some,
            r matches Ok(s) ==> self.maps_to(s),
            r matches Err(e) ==> if split_blob_decodes(self.split_metadata_json@) {
                self.is_state_failure(e)
            } else {
                self.is_blob_failure(e)
            },
    {
        let decoded = decode_split_metadata(self.split_metadata_json.as_str());
        self.split_from_decoded(decoded)
    }
}

/// Deriving the timestamp columns back from the split that a row maps to
/// gives the row's own columns.
pub proof fn lemma_split_columns_round_trip(record: Split, split: MetastoreSplit)
    requires
        record.wf(),
        record.maps_to(split),
    ensures
        timestamp_of_seconds(split.split_metadata.create_timestamp as int) == record.create_timestamp,
        timestamp_of_seconds(split.update_timestamp as int) == record.update_timestamp,
{
    lemma_timestamp_round_trip(record.create_timestamp);
    lemma_timestamp_round_trip(record.update_timestamp);
}

} // verus!
