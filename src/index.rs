use vstd::prelude::*;

use crate::error::{index_failure, index_failure_message, DecodeCause, DeserializationError};
use crate::json::{
    check_document, i64_member, is_missing_field, json_i64_member, json_str_member, json_well_formed,
    string_member,
};
use crate::timestamp::{lemma_timestamp_round_trip, timestamp_of_seconds, Timestamp};

verus! {

/// The domain metadata of an index, as held in memory.
#[derive(Debug, Clone, PartialEq, Eq)]
pub struct IndexMetadata {
    pub index_id: String,
    pub index_uri: String,
    /// Seconds since the Unix epoch at which the index was created.
    pub create_timestamp: i64,
    /// Seconds since the Unix epoch at which the index was last updated.
    pub update_timestamp: i64,
}

/// A row of the `indexes` table.
#[derive(Debug, Clone)]
pub struct Index {
    /// Identifies the index when querying the metastore.
    pub index_id: String,
    /// A JSON document holding all of the index metadata.
    pub index_metadata_json: String,
    /// When the index was created; this column is authoritative.
    pub create_timestamp: Timestamp,
    /// When the index was last updated; this column is authoritative.
    pub update_timestamp: Timestamp,
}

/// `metadata` with both of its timestamps taken from the columns.
pub open spec fn reconciled_index(
    metadata: IndexMetadata,
    create_timestamp: Timestamp,
    update_timestamp: Timestamp,
) -> IndexMetadata {
    IndexMetadata {
        index_id: metadata.index_id,
        index_uri: metadata.index_uri,
        create_timestamp: create_timestamp.seconds() as i64,
        update_timestamp: update_timestamp.seconds() as i64,
    }
}

/// Overwrites the timestamps embedded in decoded index metadata with the
/// authoritative column values. No other field changes.
pub fn reconcile_index_timestamps(
    metadata: IndexMetadata,
    create_timestamp: &Timestamp,
    update_timestamp: &Timestamp,
) -> (r: IndexMetadata)
    requires
        create_timestamp.wf(),
        update_timestamp.wf(),
    ensures
        r == reconciled_index(metadata, *create_timestamp, *update_timestamp),
{
    let mut metadata = metadata;
    metadata.create_timestamp = create_timestamp.timestamp();
    metadata.update_timestamp = update_timestamp.timestamp();
    metadata
}

/// The index metadata document `blob` holds every member that index
/// metadata is made of.
pub open spec fn index_blob_decodes(blob: Seq<char>) -> bool {
    &&& json_well_formed(blob)
    &&& json_str_member(blob, "index_id"@) is Some
    &&& json_str_member(blob, "index_uri"@) is Some
    &&& json_i64_member(blob, "create_timestamp"@) is Some
    &&& json_i64_member(blob, "update_timestamp"@) is Some
}

/// The fields of `m` other than its timestamps are those that `blob` holds.
pub open spec fn index_fields_of(blob: Seq<char>, m: IndexMetadata) -> bool {
    &&& json_str_member(blob, "index_id"@) == Some(m.index_id@)
    &&& json_str_member(blob, "index_uri"@) == Some(m.index_uri@)
}

/// `m` is the index metadata that `blob` holds, timestamps included.
pub open spec fn index_decoded_from(blob: Seq<char>, m: IndexMetadata) -> bool {
    &&& index_fields_of(blob, m)
    &&& json_i64_member(blob, "create_timestamp"@) == Some(m.create_timestamp)
    &&& json_i64_member(blob, "update_timestamp"@) == Some(m.update_timestamp)
}

/// The first member, in decoding order, that `blob` lacks.
pub open spec fn first_missing_index_member(blob: Seq<char>) -> Seq<char> {
    if json_str_member(blob, "index_id"@) is None {
        "index_id"@
    } else if json_str_member(blob, "index_uri"@) is None {
        "index_uri"@
    } else if json_i64_member(blob, "create_timestamp"@) is None {
        "create_timestamp"@
    } else {
        "update_timestamp"@
    }
}

/// `c` is the cause reported when `blob` does not decode as index metadata:
/// malformed JSON, or else the first member that it lacks.
pub open spec fn index_decode_cause(blob: Seq<char>, c: DecodeCause) -> bool {
    if json_well_formed(blob) {
        is_missing_field(c, first_missing_index_member(blob))
    } else {
        c is MalformedJson
    }
}

/// Decodes index metadata from its JSON document.
pub fn decode_index_metadata(blob: &str) -> (r: Result<IndexMetadata, DecodeCause>)
    ensures
        r is Ok <==> index_blob_decodes(blob@),
        r matches Ok(m) ==> index_decoded_from(blob@, m),
        r matches Err(c) ==> index_decode_cause(blob@, c),
{
    match check_document(blob) {
        Ok(()) => {},
        Err(c) => return Err(c),
    }
    let index_id = match string_member(blob, "index_id") {
        Ok(v) => v,
        Err(c) => return Err(c),
    };
    let index_uri = match string_member(blob, "index_uri") {
        Ok(v) => v,
        Err(c) => return Err(c),
    };
    let create_timestamp = match i64_member(blob, "create_timestamp") {
        Ok(v) => v,
        Err(c) => return Err(c),
    };
    let update_timestamp = match i64_member(blob, "update_timestamp") {
        Ok(v) => v,
        Err(c) => return Err(c),
    };
    Ok(IndexMetadata { index_id, index_uri, create_timestamp, update_timestamp })
}

impl Index {
    pub open spec fn wf(self) -> bool {
        self.create_timestamp.wf() && self.update_timestamp.wf()
    }

    /// `m` holds the members of this row's blob, with the timestamps of its
    /// columns.
    pub open spec fn maps_to(self, m: IndexMetadata) -> bool {
        &&& index_fields_of(self.index_metadata_json@, m)
        &&& m.create_timestamp == self.create_timestamp.seconds()
        &&& m.update_timestamp == self.update_timestamp.seconds()
    }

    /// Whether `r` is what this row maps to when its blob decodes to `decoded`:
    /// the decoded metadata with the column timestamps, or the decoding
    /// failure with the index message.
    pub open spec fn index_metadata_outcome(
        self,
        decoded: Result<IndexMetadata, DecodeCause>,
        r: Result<IndexMetadata, DeserializationError>,
    ) -> bool {
        match decoded {
            Ok(d) => r == Ok::<IndexMetadata, DeserializationError>(
                reconciled_index(d, self.create_timestamp, self.update_timestamp),
            ),
            Err(c) => r matches Err(e) && e.cause == c && e.message@ == index_failure_message(),
        }
    }

    /// Maps this row to its domain metadata, given what its blob decoded to.
    pub fn index_metadata_from_decoded(&self, decoded: Result<IndexMetadata, DecodeCause>) -> (r:
        Result<IndexMetadata, DeserializationError>)
        requires
            self.wf(),
        ensures
            self.index_metadata_outcome(decoded, r),
    {
        match decoded {
            Ok(metadata) => Ok(
                reconcile_index_timestamps(metadata, &self.create_timestamp, &self.update_timestamp),
            ),
            Err(cause) => Err(index_failure(cause)),
        }
    }

    /// Deserializes the index metadata from the JSON column and sets its
    /// timestamps from the dedicated columns.
    pub fn index_metadata(&self) -> (r: Result<IndexMetadata, DeserializationError>)
        requires
            self.wf(),
        ensures
            r is Ok <==> index_blob_decodes(self.index_metadata_json@),
            r matches Ok(m) ==> self.maps_to(m),
            r matches Err(e) ==> e.message@ == index_failure_message() && index_decode_cause(
                self.index_metadata_json@,
                e.cause,
            ),
    {
        let decoded = decode_index_metadata(self.index_metadata_json.as_str());
        self.index_metadata_from_decoded(decoded)
    }
}

/// Deriving the timestamp columns back from the metadata that a row maps to
/// gives the row's own columns.
pub proof fn lemma_index_columns_round_trip(record: Index, metadata: IndexMetadata)
    requires
        record.wf(),
        record.maps_to(metadata),
    ensures
        timestamp_of_seconds(metadata.create_timestamp as int) == record.create_timestamp,
        timestamp_of_seconds(metadata.update_timestamp as int) == record.update_timestamp,
{
    lemma_timestamp_round_trip(record.create_timestamp);
    lemma_timestamp_round_trip(record.update_timestamp);
}

} // verus!
