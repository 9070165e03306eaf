use metastore_model::{resolve_split_existence, IndexIdSplitIdRow, SELECT_SPLITS_FOR_INDEX};

fn row(index_id: &str, split_id: Option<&str>) -> IndexIdSplitIdRow {
    IndexIdSplitIdRow { index_id: index_id.to_string(), split_id: split_id.map(|s| s.to_string()) }
}

fn ids(v: &[&str]) -> Vec<String> {
    v.iter().map(|s| s.to_string()).collect()
}

#[test]
fn existing_index_without_candidates() {
    let r = resolve_split_existence("idx1", &ids(&[]), &vec![row("idx1", None)]);
    assert!(r.index_exists);
    assert!(r.missing_split_ids.is_empty());
}

#[test]
fn one_candidate_missing() {
    let r = resolve_split_existence("idx1", &ids(&["s1", "s2"]), &vec![row("idx1", Some("s1"))]);
    assert!(r.index_exists);
    assert_eq!(r.missing_split_ids, ids(&["s2"]));
}

#[test]
fn absent_index_misses_every_candidate() {
    let r = resolve_split_existence("ghost", &ids(&["s1"]), &vec![]);
    assert!(!r.index_exists);
    assert_eq!(r.missing_split_ids, ids(&["s1"]));
}

#[test]
fn no_candidate_matches() {
    let r = resolve_split_existence("idx1", &ids(&["s3", "s4"]), &vec![row("idx1", None)]);
    assert!(r.index_exists);
    assert_eq!(r.missing_split_ids, ids(&["s3", "s4"]));
}

#[test]
fn duplicate_candidates_count_once() {
    let rows = vec![row("idx1", Some("s1"))];
    let with_dups = resolve_split_existence("idx1", &ids(&["s2", "s1", "s2", "s1"]), &rows);
    let deduped = resolve_split_existence("idx1", &ids(&["s1", "s2"]), &rows);
    assert_eq!(with_dups, deduped);
    assert_eq!(with_dups.missing_split_ids, ids(&["s2"]));
    let all_missing = resolve_split_existence("idx1", &ids(&["s1", "s1", "s2"]), &vec![row("idx1", None)]);
    assert_eq!(all_missing.missing_split_ids, ids(&["s1", "s2"]));
}

#[test]
fn all_candidates_present() {
    let rows = vec![row("idx1", Some("s1")), row("idx1", Some("s2"))];
    let r = resolve_split_existence("idx1", &ids(&["s1", "s2"]), &rows);
    assert!(r.index_exists);
    assert!(r.missing_split_ids.is_empty());
}

#[test]
fn rows_of_another_index_are_ignored() {
    let rows = vec![row("idx2", Some("s1"))];
    let r = resolve_split_existence("idx1", &ids(&["s1"]), &rows);
    assert!(!r.index_exists);
    assert_eq!(r.missing_split_ids, ids(&["s1"]));
}

#[test]
fn query_takes_candidates_then_index() {
    assert!(SELECT_SPLITS_FOR_INDEX.contains("split_id = ANY ($1)"));
    assert!(SELECT_SPLITS_FOR_INDEX.contains("WHERE i.index_id = $2"));
    assert!(SELECT_SPLITS_FOR_INDEX.contains("LEFT JOIN"));
}
