//! Edit distance between two names.

use vstd::prelude::*;

verus! {

/// The lesser of two numbers.
pub open spec fn min2(a: nat, b: nat) -> nat {
    if a <= b {
        a
    } else {
        b
    }
}

/// The cost of putting `y` in the place of `x`.
pub open spec fn replace_cost(x: char, y: char) -> nat {
    if x == y {
        0
    } else {
        1
    }
}

/// The least number of single-character insertions, deletions and
/// replacements that turn `a` into `b`.
pub open spec fn edit_distance(a: Seq<char>, b: Seq<char>) -> nat
    decreases a.len() + b.len(),
{
    if a.len() == 0 {
        b.len()
    } else if b.len() == 0 {
        a.len()
    } else {
        min2(
            edit_distance(a.drop_last(), b.drop_last()) + replace_cost(a.last(), b.last()),
            min2(edit_distance(a.drop_last(), b) + 1, edit_distance(a, b.drop_last()) + 1),
        )
    }
}

/// The distance is at most the length of the longer name.
pub proof fn lemma_distance_bound(a: Seq<char>, b: Seq<char>)
    ensures
        edit_distance(a, b) <= a.len() || edit_distance(a, b) <= b.len(),
        edit_distance(a, b) <= a.len() + b.len(),
    decreases a.len() + b.len(),
{
    if a.len() != 0 && b.len() != 0 {
        lemma_distance_bound(a.drop_last(), b.drop_last());
    }
}

/// The edit distance between `a` and `b`.
pub fn levenshtein(a: &Vec<char>, b: &Vec<char>) -> (d: usize)
    ensures
        d == edit_distance(a@, b@),
{
    let n = a.len();
    let m = b.len();
    let mut prev: Vec<usize> = Vec::new();
    prev.push(0);
    let mut j: usize = 0;
    while j < m
        invariant
            j <= m,
            m == b.len(),
            prev.len() == j + 1,
            forall|k: int| 0 <= k <= j ==> prev[k] == k,
        decreases m - j,
    {
        j += 1;
        prev.push(j);
    }
    assert forall|k: int| 0 <= k <= m implies prev[k] == edit_distance(
        a@.take(0),
        b@.take(k),
    ) by {}
    let mut i: usize = 0;
    while i < n
        invariant
            i <= n,
            n == a.len(),
            m == b.len(),
            prev.len() == m + 1,
            forall|k: int|
                0 <= k <= m ==> prev[k] == edit_distance(a@.take(i as int), #[trigger] b@.take(k)),
        decreases n - i,
    {
        let mut cur: Vec<usize> = Vec::new();
        cur.push(i + 1);
        let mut j: usize = 0;
        while j < m
            invariant
                j <= m,
                i < n,
                n == a.len(),
                m == b.len(),
                prev.len() == m + 1,
                cur.len() == j + 1,
                forall|k: int|
                    0 <= k <= m ==> prev[k] == edit_distance(
                        a@.take(i as int),
                        #[trigger] b@.take(k),
                    ),
                forall|k: int|
                    0 <= k <= j ==> cur[k] == edit_distance(
                        a@.take(i + 1),
                        #[trigger] b@.take(k),
                    ),
            decreases m - j,
        {
            let ghost ai = a@.take(i + 1);
            let ghost bj = b@.take(j + 1);
            proof {
                assert(ai.drop_last() == a@.take(i as int));
                assert(bj.drop_last() == b@.take(j as int));
                lemma_distance_bound(a@.take(i as int), b@.take(j as int));
                lemma_distance_bound(a@.take(i as int), bj);
                lemma_distance_bound(ai, b@.take(j as int));
            }
            let replace: usize = if a[i] == b[j] {
                prev[j]
            } else {
                prev[j] + 1
            };
            let delete: usize = prev[j + 1] + 1;
            let rest: usize = if cur[j] < delete {
                cur[j] + 1
            } else {
                delete
            };
            let best: usize = if replace <= rest {
                replace
            } else {
                rest
            };
            cur.push(best);
            j += 1;
        }
        prev = cur;
        i += 1;
    }
    assert(a@.take(n as int) == a@);
    assert(b@.take(m as int) == b@);
    prev[m]
}

} // verus!
