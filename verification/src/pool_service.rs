//! The pool list over all venues.
//!
//! Each venue lists its pools on its own; the lists are joined in the order
//! of the venues. A venue that fails adds nothing and does not fail the
//! whole: the list is what the others gave.

use crate::error::DataError;
use crate::model::UnifiedPool;
use vstd::prelude::*;
use vstd::string::*;

verus! {

/// The outcome of listing the pools of all venues.
#[derive(Debug)]
pub struct PoolList {
    /// The pools of the venues that answered.
    pub pools: Vec<UnifiedPool>,
    /// Set where a venue failed.
    pub failure: Option<DataError>,
}

/// The pools that one venue contributed.
pub open spec fn contribution(answer: Result<Vec<UnifiedPool>, DataError>) -> Seq<UnifiedPool> {
    match answer {
        Ok(pools) => pools@,
        Err(_) => Seq::empty(),
    }
}

/// The lists of the venues that answered, joined in order.
pub open spec fn joined(answers: Seq<Result<Vec<UnifiedPool>, DataError>>) -> Seq<UnifiedPool>
    decreases answers.len(),
{
    if answers.len() == 0 {
        Seq::empty()
    } else {
        joined(answers.drop_last()) + contribution(answers.last())
    }
}

/// Whether some venue failed.
pub open spec fn any_failed(answers: Seq<Result<Vec<UnifiedPool>, DataError>>) -> bool {
    exists|i: int| 0 <= i < answers.len() && (#[trigger] answers[i]) is Err
}

/// Joins the pool lists of the venues. Pools are not compared across venues.
/// Failures are swallowed: the outcome notes that there was one, and holds
/// every pool of every venue that answered.
pub fn get_pool_list(answers: Vec<Result<Vec<UnifiedPool>, DataError>>) -> (list: PoolList)
    ensures
        list.pools@ == joined(answers@),
        list.failure is Some <==> any_failed(answers@),
        list.failure matches Some(e) ==> e is AggregationPartialFailure,
{
    let ghost all = answers@;
    let mut pools: Vec<UnifiedPool> = Vec::new();
    let mut failed = false;
    for answer in it: answers
        invariant
            it.seq() == all,
            pools@ == joined(all.take(it.index() as int)),
            failed <==> any_failed(all.take(it.index() as int)),
    {
        let ghost i = it.index() as int;
        proof {
            assert(all.take(i + 1).drop_last() =~= all.take(i));
            assert(all.take(i + 1)[i] == all[i]);
            if any_failed(all.take(i)) {
                let k = choose|k: int| 0 <= k < i && (#[trigger] all.take(i)[k]) is Err;
                assert(all.take(i + 1)[k] is Err);
            }
            if any_failed(all.take(i + 1)) {
                let k = choose|k: int| 0 <= k < i + 1 && (#[trigger] all.take(i + 1)[k]) is Err;
                if k < i {
                    assert(all.take(i)[k] is Err);
                }
            }
        }
        match answer {
            Ok(mut venue_pools) => {
                pools.append(&mut venue_pools);
            },
            Err(_) => {
                failed = true;
            },
        }
    }
    proof {
        assert(all.take(all.len() as int) =~= all);
    }
    let failure = if failed {
        Some(DataError::AggregationPartialFailure("a venue failed to list its pools".to_owned()))
    } else {
        None
    };
    PoolList { pools, failure }
}

/// With one venue failing and one answering, in either order, the list is
/// exactly what the answering venue gave.
pub proof fn lemma_one_failure_one_answer(error: DataError, pools: Vec<UnifiedPool>)
    ensures
        joined(seq![Err(error), Ok(pools)]) == pools@,
        joined(seq![Ok(pools), Err(error)]) == pools@,
        any_failed(seq![Err(error), Ok(pools)]),
{
    let a: Seq<Result<Vec<UnifiedPool>, DataError>> = seq![Err(error), Ok(pools)];
    let b: Seq<Result<Vec<UnifiedPool>, DataError>> = seq![Ok(pools), Err(error)];
    reveal_with_fuel(joined, 3);
    assert(a.drop_last().drop_last().len() == 0);
    assert(b.drop_last().drop_last().len() == 0);
    assert(a.drop_last().last() == a[0]);
    assert(b.drop_last().last() == b[0]);
    assert(joined(a) =~= pools@);
    assert(joined(b) =~= pools@);
    assert(a[0] is Err);
}

/// A venue that fails adds nothing to the list.
pub proof fn lemma_failure_adds_nothing(
    answers: Seq<Result<Vec<UnifiedPool>, DataError>>,
    error: DataError,
)
    ensures
        joined(answers.push(Err(error))) == joined(answers),
{
    assert(answers.push(Err(error)).drop_last() =~= answers);
    assert(joined(answers) + Seq::<UnifiedPool>::empty() =~= joined(answers));
}

} // verus!
