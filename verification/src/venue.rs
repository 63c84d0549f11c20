//! The venues and what each of them offers.
//!
//! Every venue is asked through the same four operations. A venue that does
//! not offer an operation says so with `CapabilityUnsupported`; it never
//! answers with empty data instead.

use crate::error::DataError;
use vstd::prelude::*;
use vstd::string::*;

verus! {

/// A source of market data.
#[derive(Clone, Copy, Debug, PartialEq, Eq, Structural)]
pub enum Venue {
    Binance,
    DragonSwap,
    Sailor,
}

/// What a venue can be asked for.
#[derive(Clone, Copy, Debug, PartialEq, Eq, Structural)]
pub enum Operation {
    FetchCandles,
    FetchLiquidity,
    ListPools,
    DetectOwnership,
}

/// Whether `venue` offers `operation`.
pub open spec fn offers(venue: Venue, operation: Operation) -> bool {
    match venue {
        Venue::Binance => operation == Operation::FetchCandles,
        Venue::DragonSwap => operation != Operation::FetchCandles,
        Venue::Sailor => operation != Operation::DetectOwnership,
    }
}

/// Whether `venue` offers `operation`.
pub fn supports(venue: Venue, operation: Operation) -> (yes: bool)
    ensures
        yes == offers(venue, operation),
{
    match venue {
        Venue::Binance => operation == Operation::FetchCandles,
        Venue::DragonSwap => operation != Operation::FetchCandles,
        Venue::Sailor => operation != Operation::DetectOwnership,
    }
}

/// Passes where `venue` offers `operation`, and fails with
/// `CapabilityUnsupported` where it does not.
pub fn require_capability(venue: Venue, operation: Operation) -> (result: Result<(), DataError>)
    ensures
        result is Ok <==> offers(venue, operation),
        result matches Err(e) ==> e is CapabilityUnsupported,
{
    if supports(venue, operation) {
        Ok(())
    } else {
        Err(DataError::CapabilityUnsupported("the venue does not offer this operation".to_owned()))
    }
}

/// The venue that a name stands for.
pub open spec fn venue_named(name: Seq<char>) -> Option<Venue> {
    if name == "binance"@ {
        Some(Venue::Binance)
    } else if name == "dragonswap"@ {
        Some(Venue::DragonSwap)
    } else if name == "sailor"@ {
        Some(Venue::Sailor)
    } else {
        None
    }
}

/// The venue with the given name: `binance`, `dragonswap` or `sailor`.
pub fn get_data_provider(name: &String) -> (venue: Option<Venue>)
    ensures
        venue == venue_named(name@),
{
    if *name == "binance".to_owned() {
        Some(Venue::Binance)
    } else if *name == "dragonswap".to_owned() {
        Some(Venue::DragonSwap)
    } else if *name == "sailor".to_owned() {
        Some(Venue::Sailor)
    } else {
        None
    }
}

} // verus!
