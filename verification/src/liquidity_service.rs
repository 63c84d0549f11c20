//! The liquidity range recommended for a pair.
//!
//! The range spans the lowest low and the highest high of a short window of
//! recent candles. Both bounds are turned into ticks and moved onto the grid
//! of the tick spacing. A price of zero has no tick, so a window that holds
//! one is refused.

use crate::decimal::FixedPrice;
use crate::error::DataError;
use crate::json::JsonValue;
use crate::model::{PricePoint, Token};
use crate::text::{eq_ignoring_ascii_case, same_ignoring_ascii_case};
use crate::price_history::{calculate_price_range_from_kline, highest, highs, lows, lowest};
use crate::tick_math::{align_to_tick_spacing, aligned_tick, can_align};
use vstd::prelude::*;
use vstd::string::*;

verus! {

/// The price of a token as Sailor lists it. The price stays as the venue
/// wrote it, text or number.
#[derive(Debug)]
pub struct Price {
    pub symbol: String,
    pub price: JsonValue,
    pub id: String,
}

/// Whether `i` is the place of the first token of `tokens` whose symbol is
/// `symbol` but for the case of its ASCII letters.
pub open spec fn is_first_with_symbol(tokens: Seq<Token>, symbol: Seq<char>, i: int) -> bool {
    &&& 0 <= i < tokens.len()
    &&& same_ignoring_ascii_case(tokens[i].symbol@, symbol)
    &&& forall|k: int|
        0 <= k < i ==> !same_ignoring_ascii_case((#[trigger] tokens[k]).symbol@, symbol)
}

/// Whether `tokens` holds a token whose symbol is `symbol` but for the case
/// of its ASCII letters.
pub open spec fn has_symbol(tokens: Seq<Token>, symbol: Seq<char>) -> bool {
    exists|i: int|
        0 <= i < tokens.len() && same_ignoring_ascii_case((#[trigger] tokens[i]).symbol@, symbol)
}

/// The place of the first token with the given symbol, whatever the case of
/// its letters.
pub fn find_token_by_symbol(tokens: &Vec<Token>, symbol: &str) -> (place: Option<usize>)
    ensures
        place is Some <==> has_symbol(tokens@, symbol@),
        place matches Some(i) ==> is_first_with_symbol(tokens@, symbol@, i as int),
{
    let mut i: usize = 0;
    while i < tokens.len()
        invariant
            i <= tokens.len(),
            forall|k: int|
                0 <= k < i ==> !same_ignoring_ascii_case((#[trigger] tokens@[k]).symbol@, symbol@),
        decreases tokens.len() - i,
    {
        if eq_ignoring_ascii_case(tokens[i].symbol.as_str(), symbol) {
            return Some(i);
        }
        i = i + 1;
    }
    None
}

/// Whether a window has bounds that have ticks: it holds a candle, and
/// neither its lowest low nor its highest high is zero.
pub open spec fn has_price_bounds(data: Seq<PricePoint>) -> bool {
    data.len() > 0 && lowest(lows(data)) > 0 && highest(highs(data)) > 0
}

/// The price bounds of a window of candles: its lowest low and its highest
/// high. An empty window gives `NoDataAvailable`, and a bound of zero
/// `InvalidInput`.
pub fn optimal_price_bounds(data: &[PricePoint]) -> (result: Result<(FixedPrice, FixedPrice), DataError>)
    ensures
        result is Ok <==> has_price_bounds(data@),
        result matches Ok(bounds) ==> bounds.0@ == lowest(lows(data@)) && bounds.1@ == highest(
            highs(data@),
        ),
        data@.len() == 0 <==> result matches Err(DataError::NoDataAvailable(_)),
        result matches Err(e) ==> e is NoDataAvailable || e is InvalidInput,
{
    if data.len() == 0 {
        return Err(DataError::NoDataAvailable("no candles to derive a range from".to_owned()));
    }
    let (lower, upper) = calculate_price_range_from_kline(data);
    if lower.units() == 0 || upper.units() == 0 {
        return Err(DataError::InvalidInput("a price of zero has no tick".to_owned()));
    }
    Ok((lower, upper))
}

/// Whether both ticks can be moved onto the grid of `spacing`.
pub open spec fn can_align_range(lower_tick: int, upper_tick: int, spacing: int) -> bool {
    &&& spacing > 0
    &&& i32::MIN <= aligned_tick(lower_tick, spacing) <= i32::MAX
    &&& i32::MIN <= aligned_tick(upper_tick, spacing) <= i32::MAX
}

/// The liquidity range for the ticks of the two price bounds: both ticks
/// moved onto the grid of `spacing`. A spacing that is not positive, and a
/// tick that the grid takes out of range, are `InvalidInput`.
pub fn get_optimal_liquidity_range(lower_tick: i32, upper_tick: i32, spacing: i32) -> (result:
    Result<(i32, i32), DataError>)
    ensures
        result is Ok <==> can_align_range(lower_tick as int, upper_tick as int, spacing as int),
        result matches Ok(range) ==> range.0 == aligned_tick(lower_tick as int, spacing as int)
            && range.1 == aligned_tick(upper_tick as int, spacing as int),
        result matches Err(e) ==> e is InvalidInput,
{
    if can_align(lower_tick, spacing) && can_align(upper_tick, spacing) {
        Ok((align_to_tick_spacing(lower_tick, spacing), align_to_tick_spacing(upper_tick, spacing)))
    } else {
        Err(DataError::InvalidInput("the ticks cannot be aligned to the spacing".to_owned()))
    }
}

} // verus!
