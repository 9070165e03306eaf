use vstd::prelude::*;
use vstd::string::*;

verus! {

/// Finds out, in one round trip, whether an index exists and which of a set
/// of split ids belong to it. `$1` is the array of candidate split ids, `$2`
/// the index id. No row means that the index does not exist; a row whose
/// split id is null only says that it does.
pub const SELECT_SPLITS_FOR_INDEX: &'static str = "
SELECT i.index_id, s.split_id
FROM indexes AS i
LEFT JOIN (
    SELECT index_id, split_id
    FROM splits
    WHERE split_id = ANY ($1)
) AS s
ON i.index_id = s.index_id
WHERE i.index_id = $2";

/// A row of the result of `SELECT_SPLITS_FOR_INDEX`.
#[derive(Debug, Clone)]
pub struct IndexIdSplitIdRow {
    pub index_id: String,
    pub split_id: Option<String>,
}

/// What the rows of `SELECT_SPLITS_FOR_INDEX` say of an index and a set of
/// candidate split ids.
#[derive(Debug, Clone, PartialEq, Eq)]
pub struct SplitExistence {
    pub index_exists: bool,
    /// The distinct candidates that do not belong to the index, each once.
    pub missing_split_ids: Vec<String>,
}

/// The characters of each string of `v`.
pub open spec fn texts(v: Seq<String>) -> Seq<Seq<char>> {
    v.map_values(|s: String| s@)
}

/// Some row says that the index `index_id` exists.
pub open spec fn index_row_present(index_id: Seq<char>, rows: Seq<IndexIdSplitIdRow>) -> bool {
    exists|k: int| 0 <= k < rows.len() && (#[trigger] rows[k]).index_id@ == index_id
}

/// `row` pairs the index `index_id` with the split `split_id`.
pub open spec fn row_matches(row: IndexIdSplitIdRow, index_id: Seq<char>, split_id: Seq<char>) -> bool {
    row.index_id@ == index_id && (row.split_id matches Some(s) && s@ == split_id)
}

/// Some row says that the split `split_id` belongs to the index `index_id`.
pub open spec fn split_found(
    index_id: Seq<char>,
    rows: Seq<IndexIdSplitIdRow>,
    split_id: Seq<char>,
) -> bool {
    exists|k: int| 0 <= k < rows.len() && row_matches(#[trigger] rows[k], index_id, split_id)
}

/// The candidates that no row places under the index `index_id`.
pub open spec fn missing_split_set(
    index_id: Seq<char>,
    candidates: Set<Seq<char>>,
    rows: Seq<IndexIdSplitIdRow>,
) -> Set<Seq<char>> {
    candidates.filter(|s: Seq<char>| !split_found(index_id, rows, s))
}

/// `r` is what the rows say of the index `index_id` and the candidates:
/// whether the index exists, and each missing candidate once.
pub open spec fn resolves_to(
    index_id: Seq<char>,
    candidates: Seq<Seq<char>>,
    rows: Seq<IndexIdSplitIdRow>,
    r: SplitExistence,
) -> bool {
    &&& r.index_exists == index_row_present(index_id, rows)
    &&& texts(r.missing_split_ids@).to_set() == missing_split_set(
        index_id,
        candidates.to_set(),
        rows,
    )
    &&& texts(r.missing_split_ids@).no_duplicates()
}

fn index_row_present_exec(index_id: &String, rows: &Vec<IndexIdSplitIdRow>) -> (r: bool)
    ensures
        r == index_row_present(index_id@, rows@),
{
    let mut k: usize = 0;
    while k < rows.len()
        invariant
            k <= rows.len(),
            forall|j: int| 0 <= j < k ==> (#[trigger] rows@[j]).index_id@ != index_id@,
        decreases rows.len() - k,
    {
        if rows[k].index_id == *index_id {
            return true;
        }
        k = k + 1;
    }
    false
}

fn split_found_exec(index_id: &String, rows: &Vec<IndexIdSplitIdRow>, split_id: &String) -> (r:
    bool)
    ensures
        r == split_found(index_id@, rows@, split_id@),
{
    let mut k: usize = 0;
    while k < rows.len()
        invariant
            k <= rows.len(),
            forall|j: int| 0 <= j < k ==> !row_matches(#[trigger] rows@[j], index_id@, split_id@),
        decreases rows.len() - k,
    {
        let row = &rows[k];
        if row.index_id == *index_id {
            match &row.split_id {
                Some(s) => {
                    if *s == *split_id {
                        assert(row_matches(rows@[k as int], index_id@, split_id@));
                        return true;
                    }
                },
                None => {},
            }
        }
        k = k + 1;
    }
    false
}

fn contains_text(v: &Vec<String>, s: &String) -> (r: bool)
    ensures
        r == texts(v@).contains(s@),
{
    let mut k: usize = 0;
    while k < v.len()
        invariant
            k <= v.len(),
            forall|j: int| 0 <= j < k ==> (#[trigger] v@[j])@ != s@,
        decreases v.len() - k,
    {
        if v[k] == *s {
            assert(texts(v@)[k as int] == s@);
            return true;
        }
        k = k + 1;
    }
    proof {
        if texts(v@).contains(s@) {
            let j = choose|j: int| 0 <= j < texts(v@).len() && texts(v@)[j] == s@;
            assert(v@[j]@ == s@);
        }
    }
    false
}

proof fn lemma_push_contains<A>(s: Seq<A>, x: A, y: A)
    ensures
        s.push(x).contains(y) <==> (s.contains(y) || y == x),
{
    if s.push(x).contains(y) {
        let k = choose|k: int| 0 <= k < s.push(x).len() && s.push(x)[k] == y;
        if k < s.len() {
            assert(s[k] == y);
        }
    }
    if s.contains(y) {
        let k = choose|k: int| 0 <= k < s.len() && s[k] == y;
        assert(s.push(x)[k] == y);
    }
    if y == x {
        assert(s.push(x)[s.len() as int] == y);
    }
}

/// Reads the rows of `SELECT_SPLITS_FOR_INDEX`, run for `index_id` and
/// `candidate_split_ids`: whether the index exists, and which candidates do
/// not belong to it. A missing index is no error: all candidates are then
/// missing. Repeated candidates count once.
pub fn resolve_split_existence(
    index_id: &str,
    candidate_split_ids: &Vec<String>,
    rows: &Vec<IndexIdSplitIdRow>,
) -> (r: SplitExistence)
    ensures
        resolves_to(index_id@, texts(candidate_split_ids@), rows@, r),
{
    let index_id = String::from_str(index_id);
    let index_exists = index_row_present_exec(&index_id, rows);
    let mut missing: Vec<String> = Vec::new();
    let mut i: usize = 0;
    while i < candidate_split_ids.len()
        invariant
            i <= candidate_split_ids.len(),
            texts(missing@).no_duplicates(),
            forall|s: Seq<char>|
                #![trigger texts(missing@).contains(s)]
                #![trigger texts(candidate_split_ids@).subrange(0, i as int).contains(s)]
                texts(missing@).contains(s) <==> (texts(candidate_split_ids@).subrange(
                    0,
                    i as int,
                ).contains(s) && !split_found(index_id@, rows@, s)),
        decreases candidate_split_ids.len() - i,
    {
        let candidate = &candidate_split_ids[i];
        let found = split_found_exec(&index_id, rows, candidate);
        let seen = contains_text(&missing, candidate);
        let ghost before = texts(missing@);
        proof {
            assert(texts(candidate_split_ids@).subrange(0, i + 1) =~= texts(
                candidate_split_ids@,
            ).subrange(0, i as int).push(candidate@));
        }
        if !found && !seen {
            missing.push(candidate.clone());
            proof {
                assert(texts(missing@) =~= before.push(candidate@));
            }
        }
        proof {
            let prefix = texts(candidate_split_ids@).subrange(0, i as int);
            assert forall|s: Seq<char>| #[trigger] texts(missing@).contains(s) <==> (prefix.push(
                candidate@,
            ).contains(s) && !split_found(index_id@, rows@, s)) by {
                lemma_push_contains(prefix, candidate@, s);
                lemma_push_contains(before, candidate@, s);
            }
        }
        i = i + 1;
    }
    proof {
        assert(texts(candidate_split_ids@).subrange(0, i as int) =~= texts(candidate_split_ids@));
        assert(texts(missing@).to_set() =~= missing_split_set(
            index_id@,
            texts(candidate_split_ids@).to_set(),
            rows@,
        ));
    }
    SplitExistence { index_exists, missing_split_ids: missing }
}

/// Candidate lists that hold the same ids, whatever their repetitions and
/// order, resolve to the same outcome: the same answer on the index and the
/// same missing ids, each once.
pub proof fn lemma_duplicate_candidates_irrelevant(
    index_id: Seq<char>,
    candidates: Seq<Seq<char>>,
    other_candidates: Seq<Seq<char>>,
    rows: Seq<IndexIdSplitIdRow>,
    r: SplitExistence,
    other_r: SplitExistence,
)
    requires
        candidates.to_set() == other_candidates.to_set(),
        resolves_to(index_id, candidates, rows, r),
        resolves_to(index_id, other_candidates, rows, other_r),
    ensures
        r.index_exists == other_r.index_exists,
        texts(r.missing_split_ids@).to_set() == texts(other_r.missing_split_ids@).to_set(),
        texts(r.missing_split_ids@).no_duplicates(),
        texts(other_r.missing_split_ids@).no_duplicates(),
{
}

/// When no row names the index, the index does not exist and every candidate
/// is missing.
pub proof fn lemma_absent_index_misses_all(
    index_id: Seq<char>,
    candidates: Set<Seq<char>>,
    rows: Seq<IndexIdSplitIdRow>,
)
    requires
        !index_row_present(index_id, rows),
    ensures
        missing_split_set(index_id, candidates, rows) == candidates,
{
    assert forall|s: Seq<char>| !split_found(index_id, rows, s) by {
        if split_found(index_id, rows, s) {
            let k = choose|k: int| 0 <= k < rows.len() && row_matches(#[trigger] rows[k], index_id, s);
            assert(rows[k].index_id@ == index_id);
        }
    }
    assert(missing_split_set(index_id, candidates, rows) =~= candidates);
}

} // verus!
