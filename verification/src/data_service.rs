//! Which venue answers for the liquidity of a pool.
//!
//! The choice is made by asking, not by a fixed order: the primary venue is
//! asked whether it hosts the pool, and its answer decides.

use crate::error::DataError;
use crate::venue::Venue;
use vstd::prelude::*;

verus! {

/// The venue that answers for a pool's liquidity, given what the primary
/// venue said when asked whether the pool is its own.
pub open spec fn source_after(probe: Result<bool, DataError>) -> Result<Venue, DataError> {
    match probe {
        Ok(true) => Ok(Venue::DragonSwap),
        Ok(false) => Ok(Venue::Sailor),
        Err(e) => Err(e),
    }
}

/// Chooses the venue that answers for a pool's liquidity.
///
/// The primary venue is asked whether it hosts the pool. If it does, it
/// alone answers; if it does not, the secondary venue answers. If the
/// question itself failed, so does the choice, with the same error.
pub fn get_graph_data(probe: Result<bool, DataError>) -> (source: Result<Venue, DataError>)
    ensures
        source == source_after(probe),
{
    match probe {
        Ok(true) => Ok(Venue::DragonSwap),
        Ok(false) => Ok(Venue::Sailor),
        Err(e) => Err(e),
    }
}

} // verus!
