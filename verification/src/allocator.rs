//! The surrogate key allocator: computes the next unique value of a managed
//! identifier column by scanning the existing values. The scan is snapshot
//! based — the caller queries the column once for the running maximum and
//! once more for the collision re-check — mirroring the fact that the store
//! may be mutated externally between the two reads.
use vstd::prelude::*;

verus! {

/// The greatest value among the identifiers; zero over an empty sequence.
pub open spec fn seq_max(s: Seq<i64>) -> int
    decreases s.len(),
{
    if s.len() == 0 {
        0
    } else if s.len() == 1 {
        s[0] as int
    } else {
        let m = seq_max(s.drop_last());
        if s.last() as int > m {
            s.last() as int
        } else {
            m
        }
    }
}

/// Whether the value occurs among the identifiers.
pub open spec fn contains_val(s: Seq<i64>, v: int) -> bool {
    exists|i: int| 0 <= i < s.len() && #[trigger] s[i] as int == v
}

/// The candidate key: one past the maximum existing identifier, or one when
/// no identifier exists yet.
pub open spec fn candidate_spec(existing: Seq<i64>) -> int {
    if existing.len() == 0 {
        1
    } else {
        seq_max(existing) + 1
    }
}

/// A gap in the identifiers at `x`: the value exists but its successor does not.
pub open spec fn is_gap_at(s: Seq<i64>, x: int) -> bool {
    contains_val(s, x) && !contains_val(s, x + 1)
}

/// The maximum of a nonempty sequence is one of its values and bounds them all.
pub proof fn lemma_seq_max_bound(s: Seq<i64>)
    requires
        s.len() > 0,
    ensures
        contains_val(s, seq_max(s)),
        forall|i: int| 0 <= i < s.len() ==> #[trigger] s[i] as int <= seq_max(s),
    decreases s.len(),
{
    if s.len() == 1 {
        assert(s[0] as int == seq_max(s));
    } else {
        lemma_seq_max_bound(s.drop_last());
        let m = seq_max(s.drop_last());
        if s.last() as int > m {
            assert(s[s.len() - 1] as int == seq_max(s));
        } else {
            let i = choose|i: int| 0 <= i < s.drop_last().len() && s.drop_last()[i] as int == m;
            assert(s[i] as int == seq_max(s));
        }
        assert(forall|i: int|
            0 <= i < s.len() - 1 ==> #[trigger] s[i] as int == s.drop_last()[i] as int);
    }
}

/// A nonempty identifier set always has a gap: at its maximum, if nowhere earlier.
pub proof fn lemma_nonempty_has_gap(s: Seq<i64>)
    requires
        s.len() > 0,
    ensures
        is_gap_at(s, seq_max(s)),
{
    lemma_seq_max_bound(s);
}

/// Whether the value occurs in the vector.
pub fn contains(values: &Vec<i64>, x: i64) -> (r: bool)
    ensures
        r == contains_val(values@, x as int),
{
    let mut i: usize = 0;
    while i < values.len()
        invariant
            i <= values@.len(),
            forall|j: int| 0 <= j < i ==> #[trigger] values@[j] != x,
        decreases values@.len() - i,
    {
        if values[i] == x {
            return true;
        }
        i = i + 1;
    }
    false
}

fn max_value(values: &Vec<i64>) -> (r: i64)
    requires
        values@.len() > 0,
    ensures
        r as int == seq_max(values@),
{
    let mut m = values[0];
    let mut i: usize = 1;
    while i < values.len()
        invariant
            1 <= i <= values@.len(),
            m as int == seq_max(values@.subrange(0, i as int)),
        decreases values@.len() - i,
    {
        proof {
            let pre = values@.subrange(0, i as int);
            let post = values@.subrange(0, i + 1);
            assert(post.drop_last() =~= pre);
            assert(post.last() == values@[i as int]);
        }
        if values[i] > m {
            m = values[i];
        }
        i = i + 1;
    }
    proof {
        assert(values@.subrange(0, values@.len() as int) =~= values@);
    }
    m
}

/// The candidate key for the next record, computed from a snapshot of the
/// existing identifier values.
pub fn next_candidate(existing: &Vec<i64>) -> (r: i64)
    requires
        forall|i: int| 0 <= i < existing@.len() ==> #[trigger] existing@[i] < i64::MAX,
    ensures
        r as int == candidate_spec(existing@),
{
    if existing.len() == 0 {
        1
    } else {
        proof {
            lemma_seq_max_bound(existing@);
        }
        let m = max_value(existing);
        m + 1
    }
}

/// Fills the first gap: one past the smallest identifier whose successor is
/// unused, or nothing when no identifier exists at all.
pub fn first_gap_successor(values: &Vec<i64>) -> (r: Option<i64>)
    requires
        forall|i: int| 0 <= i < values@.len() ==> #[trigger] values@[i] < i64::MAX,
    ensures
        match r {
            Some(g) => is_gap_at(values@, g as int - 1) && (forall|y: int|
                is_gap_at(values@, y) ==> g as int - 1 <= y),
            None => forall|y: int| !is_gap_at(values@, y),
        },
{
    let mut best: Option<i64> = None;
    let mut i: usize = 0;
    while i < values.len()
        invariant
            i <= values@.len(),
            forall|j: int| 0 <= j < values@.len() ==> #[trigger] values@[j] < i64::MAX,
            match best {
                Some(b) => is_gap_at(values@, b as int) && (forall|j: int|
                    0 <= j < i && is_gap_at(values@, #[trigger] values@[j] as int) ==> b as int
                        <= values@[j] as int),
                None => forall|j: int|
                    0 <= j < i ==> !is_gap_at(values@, #[trigger] values@[j] as int),
            },
        decreases values@.len() - i,
    {
        let x = values[i];
        if !contains(values, x + 1) {
            proof {
                assert(contains_val(values@, x as int));
            }
            match best {
                Some(b) => {
                    if x < b {
                        best = Some(x);
                    }
                },
                None => {
                    best = Some(x);
                },
            }
        }
        i = i + 1;
    }
    match best {
        Some(b) => {
            proof {
                assert forall|y: int| is_gap_at(values@, y) implies b as int <= y by {
                    let j = choose|j: int| 0 <= j < values@.len() && values@[j] as int == y;
                    assert(is_gap_at(values@, values@[j] as int));
                };
            }
            Some(b + 1)
        },
        None => {
            proof {
                assert forall|y: int| !is_gap_at(values@, y) by {
                    if is_gap_at(values@, y) {
                        let j = choose|j: int| 0 <= j < values@.len() && values@[j] as int == y;
                        assert(is_gap_at(values@, values@[j] as int));
                    }
                };
            }
            None
        },
    }
}

/// Computes the key to assign to a new record. `existing` is the snapshot the
/// candidate is computed from; `current` is the later snapshot the candidate
/// is re-checked against, so the result never collides with a value seen in
/// `current`, even one slipped in externally between the two reads. When the
/// candidate collides, the first gap in `current` is filled instead.
pub fn allocate_key(existing: &Vec<i64>, current: &Vec<i64>) -> (r: i64)
    requires
        forall|i: int| 0 <= i < existing@.len() ==> #[trigger] existing@[i] < i64::MAX,
        forall|i: int| 0 <= i < current@.len() ==> #[trigger] current@[i] < i64::MAX,
    ensures
        !contains_val(current@, r as int),
        !contains_val(current@, candidate_spec(existing@)) ==> r as int == candidate_spec(
            existing@,
        ),
        contains_val(current@, candidate_spec(existing@)) ==> is_gap_at(current@, r as int - 1)
            && (forall|y: int| is_gap_at(current@, y) ==> r as int - 1 <= y),
{
    let candidate = next_candidate(existing);
    if contains(current, candidate) {
        match first_gap_successor(current) {
            Some(g) => g,
            None => {
                proof {
                    lemma_nonempty_has_gap(current@);
                }
                candidate + 1
            },
        }
    } else {
        candidate
    }
}

/// Allocator uniqueness: a fresh key is absent from the values it was checked
/// against, so when every key issued so far is among those values — as it is
/// for sequential creates against the same table — the fresh key differs from
/// each of them.
pub proof fn lemma_allocator_uniqueness(issued: Seq<i64>, current: Seq<i64>, fresh: i64)
    requires
        forall|i: int| 0 <= i < issued.len() ==> contains_val(current, #[trigger] issued[i] as int),
        !contains_val(current, fresh as int),
    ensures
        forall|i: int| 0 <= i < issued.len() ==> issued[i] != fresh,
{
    assert forall|i: int| 0 <= i < issued.len() implies issued[i] != fresh by {
        if issued[i] == fresh {
            assert(contains_val(current, fresh as int));
        }
    };
}

} // verus!
