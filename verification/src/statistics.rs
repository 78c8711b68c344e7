//! Statistics of a user or a livestream, put together from what the store
//! has counted and ranked.

use vstd::prelude::*;
use crate::error::{Error, ErrorView};

verus! {

/// One line of a ranking: the id of what is ranked, and its rank.
#[derive(Clone, Copy, Debug, PartialEq, Eq, Structural)]
pub struct RankEntry {
    pub id: i64,
    pub rank: u64,
}

/// Whether `at` is the position of the first line of `ranking` for `id`.
pub open spec fn first_line_for(ranking: Seq<RankEntry>, id: i64, at: int) -> bool {
    &&& 0 <= at < ranking.len()
    &&& ranking[at].id == id
    &&& forall|j: int| 0 <= j < at ==> (#[trigger] ranking[j]).id != id
}

/// The rank that `ranking` gives `id`: that of its first line for `id`.
pub fn find_rank(ranking: &Vec<RankEntry>, id: i64) -> (rank: Option<u64>)
    ensures
        match rank {
            Some(rank) => exists|at: int| #[trigger]
                first_line_for(ranking@, id, at) && ranking[at].rank == rank,
            None => forall|at: int| 0 <= at < ranking.len() ==> (#[trigger] ranking[at]).id != id,
        },
{
    let mut i: usize = 0;
    while i < ranking.len()
        invariant
            i <= ranking.len(),
            forall|j: int| 0 <= j < i ==> (#[trigger] ranking[j]).id != id,
        decreases ranking.len() - i,
    {
        if ranking[i].id == id {
            assert(first_line_for(ranking@, id, i as int));
            return Some(ranking[i].rank);
        }
        i += 1;
    }
    None
}

/// The rank of a livestream in `ranking`. A livestream that the ranking does
/// not know is a bad request.
pub fn livestream_rank(ranking: &Vec<RankEntry>, livestream_id: i64) -> (rank: Result<u64, Error>)
    ensures
        match rank {
            Ok(rank) => exists|at: int| #[trigger]
                first_line_for(ranking@, livestream_id, at) && ranking[at].rank == rank,
            Err(error) => error@ == ErrorView::BadRequest(""@) && forall|at: int|
                0 <= at < ranking.len() ==> (#[trigger] ranking[at]).id != livestream_id,
        },
{
    match find_rank(ranking, livestream_id) {
        Some(rank) => Ok(rank),
        None => Err(Error::bad_request("")),
    }
}

/// The sum of `amounts`.
pub open spec fn total(amounts: Seq<i64>) -> int
    decreases amounts.len(),
{
    if amounts.len() == 0 {
        0
    } else {
        total(amounts.drop_last()) + amounts.last()
    }
}

/// Whether the sum of the first `n` of `amounts` fits a 64-bit integer, for
/// every `n`.
pub open spec fn sums_fit(amounts: Seq<i64>) -> bool {
    forall|n: int|
        0 <= n <= amounts.len() ==> i64::MIN <= #[trigger] total(amounts.take(n)) <= i64::MAX
}

/// The sum of `amounts`, added up from the first to the last; `None` where a
/// sum on the way does not fit a 64-bit integer.
pub fn sum(amounts: &Vec<i64>) -> (sum: Option<i64>)
    ensures
        match sum {
            Some(sum) => sums_fit(amounts@) && sum == total(amounts@),
            None => !sums_fit(amounts@),
        },
{
    let mut sum: i64 = 0;
    let mut i: usize = 0;
    assert(amounts@.take(0) =~= Seq::<i64>::empty());
    while i < amounts.len()
        invariant
            i <= amounts.len(),
            sum == total(amounts@.take(i as int)),
            forall|n: int|
                0 <= n <= i ==> i64::MIN <= #[trigger] total(amounts@.take(n)) <= i64::MAX,
        decreases amounts.len() - i,
    {
        assert(amounts@.take(i + 1).drop_last() =~= amounts@.take(i as int));
        assert(amounts@.take(i + 1).last() == amounts[i as int]);
        match sum.checked_add(amounts[i]) {
            Some(next) => {
                sum = next;
            },
            None => {
                assert(!(i64::MIN <= total(amounts@.take(i + 1)) <= i64::MAX));
                return None;
            },
        }
        i += 1;
    }
    assert(amounts@.take(amounts.len() as int) =~= amounts@);
    Some(sum)
}

} // verus!
