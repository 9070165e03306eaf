use metastore_model::{
    decode_index_metadata, reconcile_index_timestamps, DecodeCause, Index, IndexMetadata,
    Timestamp,
};

fn index_row(blob: &str, create: i64, update: i64) -> Index {
    Index {
        index_id: "idx1".to_string(),
        index_metadata_json: blob.to_string(),
        create_timestamp: Timestamp::from_timestamp(create),
        update_timestamp: Timestamp::from_timestamp(update),
    }
}

const INDEX_BLOB: &str = r#"{"index_id":"idx1","index_uri":"s3://bucket/idx1","create_timestamp":5,"update_timestamp":6}"#;

#[test]
fn index_metadata_takes_timestamps_from_columns() {
    let row = index_row(INDEX_BLOB, 1_600_000_000, 1_600_000_100);
    let metadata = row.index_metadata().unwrap();
    assert_eq!(
        metadata,
        IndexMetadata {
            index_id: "idx1".to_string(),
            index_uri: "s3://bucket/idx1".to_string(),
            create_timestamp: 1_600_000_000,
            update_timestamp: 1_600_000_100,
        }
    );
}

#[test]
fn index_metadata_is_repeatable() {
    let row = index_row(INDEX_BLOB, 10, 20);
    assert_eq!(row.index_metadata().unwrap(), row.index_metadata().unwrap());
}

#[test]
fn index_metadata_rejects_malformed_blob() {
    let row = index_row("{not json", 10, 20);
    let err = row.index_metadata().unwrap_err();
    assert_eq!(err.message, "Failed to deserialize index metadata.");
    assert!(matches!(err.cause, DecodeCause::MalformedJson { .. }));
}

#[test]
fn index_metadata_rejects_missing_member() {
    let row = index_row(r#"{"index_id":"idx1","create_timestamp":5,"update_timestamp":6}"#, 10, 20);
    let err = row.index_metadata().unwrap_err();
    assert_eq!(err.message, "Failed to deserialize index metadata.");
    assert_eq!(err.cause, DecodeCause::MissingField { field: "index_uri".to_string() });
}

#[test]
fn index_metadata_rejects_wrongly_typed_member() {
    let row = index_row(
        r#"{"index_id":"idx1","index_uri":"u","create_timestamp":"5","update_timestamp":6}"#,
        10,
        20,
    );
    let err = row.index_metadata().unwrap_err();
    assert_eq!(err.cause, DecodeCause::MissingField { field: "create_timestamp".to_string() });
}

#[test]
fn index_columns_round_trip() {
    let row = index_row(INDEX_BLOB, -90_000, 1_234_567_890);
    let metadata = row.index_metadata().unwrap();
    assert_eq!(Timestamp::from_timestamp(metadata.create_timestamp), row.create_timestamp);
    assert_eq!(Timestamp::from_timestamp(metadata.update_timestamp), row.update_timestamp);
}

#[test]
fn reconcile_overwrites_only_timestamps() {
    let decoded = decode_index_metadata(INDEX_BLOB).unwrap();
    assert_eq!(decoded.create_timestamp, 5);
    let reconciled = reconcile_index_timestamps(
        decoded.clone(),
        &Timestamp { days: 1, seconds_of_day: 1 },
        &Timestamp { days: 2, seconds_of_day: 0 },
    );
    assert_eq!(reconciled.create_timestamp, 86_401);
    assert_eq!(reconciled.update_timestamp, 172_800);
    assert_eq!(reconciled.index_id, decoded.index_id);
    assert_eq!(reconciled.index_uri, decoded.index_uri);
}

#[test]
fn index_metadata_from_decoded_maps_failure() {
    let row = index_row(INDEX_BLOB, 10, 20);
    let cause = DecodeCause::MissingField { field: "x".to_string() };
    let err = row.index_metadata_from_decoded(Err(cause.clone())).unwrap_err();
    assert_eq!(err.cause, cause);
    assert_eq!(err.message, "Failed to deserialize index metadata.");
}

#[test]
fn first_missing_member_is_reported() {
    let err = decode_index_metadata(r#"{"index_id":"idx1","create_timestamp":5}"#).unwrap_err();
    assert_eq!(err, DecodeCause::MissingField { field: "index_uri".to_string() });
    let err = decode_index_metadata(r#"{"index_id":"idx1","index_uri":"u","create_timestamp":5}"#)
        .unwrap_err();
    assert_eq!(err, DecodeCause::MissingField { field: "update_timestamp".to_string() });
}

#[test]
fn blob_members_are_decoded() {
    let decoded = decode_index_metadata(INDEX_BLOB).unwrap();
    assert_eq!(decoded.index_id, "idx1");
    assert_eq!(decoded.index_uri, "s3://bucket/idx1");
    assert_eq!(decoded.update_timestamp, 6);
}
