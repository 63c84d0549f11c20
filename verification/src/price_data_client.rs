//! Decoding of the candle feed.
//!
//! The feed answers with an array of candles. Each candle is itself an array
//! of at least twelve members, of which the first six are read: the opening
//! time in milliseconds as a number, then open, high, low, close and volume
//! as decimal text. A candle that does not have this form is left out; the
//! others are kept in the order in which they came.

use crate::decimal::{decimal_units, parsed_units, Decimal, FixedPrice, MAX_PRICE_UNITS};
use crate::decimal_text::{format_number, number_text};
use crate::text::{uppercase, uppercase_of};
use crate::error::DataError;
use crate::json::JsonValue;
use crate::model::PricePoint;
use vstd::prelude::*;
use vstd::string::*;

verus! {

/// Members a candle of the feed has at least.
pub const KLINE_MEMBERS: usize = 12;

/// Whether `text` writes a price within the bound.
pub open spec fn is_price_text(text: Seq<char>) -> bool {
    parsed_units(text) matches Some(units) && units <= MAX_PRICE_UNITS
}

/// Whether `value` is text that writes a price.
pub open spec fn is_price_member(value: JsonValue) -> bool {
    value matches JsonValue::Text(text) && is_price_text(text@)
}

/// Whether `value` is text that writes an amount.
pub open spec fn is_amount_member(value: JsonValue) -> bool {
    value matches JsonValue::Text(text) && parsed_units(text@) is Some
}

/// Whether `item` has the form of a candle.
pub open spec fn is_kline(item: JsonValue) -> bool {
    &&& item matches JsonValue::Array(members)
    &&& members@.len() >= KLINE_MEMBERS
    &&& members@[0] is Unsigned
    &&& is_price_member(members@[1])
    &&& is_price_member(members@[2])
    &&& is_price_member(members@[3])
    &&& is_price_member(members@[4])
    &&& is_amount_member(members@[5])
}

/// The units that the text `value` writes.
pub open spec fn member_units(value: JsonValue) -> nat {
    decimal_units(value->Text_0@).unwrap()
}

/// Whether `point` is the candle that `item` describes: its time in whole
/// seconds, and its prices and volume as written.
pub open spec fn describes(item: JsonValue, point: PricePoint) -> bool {
    let members = item->Array_0@;
    &&& point.tick == members[0]->Unsigned_0 / 1000
    &&& point.open@ == member_units(members[1])
    &&& point.high@ == member_units(members[2])
    &&& point.low@ == member_units(members[3])
    &&& point.close@ == member_units(members[4])
    &&& point.volume matches Some(volume)
    &&& volume.units == member_units(members[5])
}

/// The price that a member of a candle writes.
fn read_price(value: &JsonValue) -> (price: Option<FixedPrice>)
    ensures
        price is Some <==> is_price_member(*value),
        price matches Some(p) ==> p@ == member_units(*value),
{
    match value {
        JsonValue::Text(text) => FixedPrice::parse(text.as_str()),
        _ => None,
    }
}

/// The amount that a member of a candle writes.
fn read_amount(value: &JsonValue) -> (amount: Option<Decimal>)
    ensures
        amount is Some <==> is_amount_member(*value),
        amount matches Some(d) ==> d.units == member_units(*value),
{
    match value {
        JsonValue::Text(text) => Decimal::parse(text.as_str()),
        _ => None,
    }
}

/// The items of `items` that have the form of a candle, in order.
pub open spec fn klines_among(items: Seq<JsonValue>) -> Seq<JsonValue> {
    items.filter(|item: JsonValue| is_kline(item))
}

/// Whether `points` are the candles that `items` describe, one for one.
pub open spec fn describe_all(items: Seq<JsonValue>, points: Seq<PricePoint>) -> bool {
    &&& points.len() == items.len()
    &&& forall|i: int| 0 <= i < items.len() ==> describes(#[trigger] items[i], points[i])
}

/// The feed's name for an interval of `minutes` minutes.
pub open spec fn interval_name(minutes: u32) -> Seq<char> {
    if minutes == 1 {
        "1m"@
    } else if minutes == 3 {
        "3m"@
    } else if minutes == 5 {
        "5m"@
    } else if minutes == 15 {
        "15m"@
    } else if minutes == 30 {
        "30m"@
    } else if minutes == 60 {
        "1h"@
    } else if minutes == 120 {
        "2h"@
    } else if minutes == 240 {
        "4h"@
    } else if minutes == 360 {
        "6h"@
    } else if minutes == 480 {
        "8h"@
    } else if minutes == 720 {
        "12h"@
    } else if minutes == 1440 {
        "1d"@
    } else if minutes == 2880 {
        "3d"@
    } else if minutes == 10080 {
        "1w"@
    } else if minutes == 43200 {
        "1M"@
    } else {
        "1d"@
    }
}

/// The candle feed, reached under a base address.
#[derive(Debug)]
pub struct PriceDataClient {
    pub base_url: String,
}

impl PriceDataClient {
    /// The feed reached under `base_url`.
    pub fn new(base_url: String) -> (client: PriceDataClient)
        ensures
            client.base_url == base_url,
    {
        PriceDataClient { base_url }
    }

    /// Reads one candle of the feed. An item that has not the form of a candle
    /// is an upstream failure.
    pub fn parse_binance_kline(&self, item: &JsonValue) -> (result: Result<PricePoint, DataError>)
        ensures
            result is Ok <==> is_kline(*item),
            result matches Ok(point) ==> describes(*item, point),
            result matches Err(e) ==> e is UpstreamFailure,
    {
        let members = match item {
            JsonValue::Array(members) => members,
            _ => {
                return Err(DataError::UpstreamFailure("candle is not an array".to_owned()));
            },
        };
        if members.len() < KLINE_MEMBERS {
            return Err(DataError::UpstreamFailure("candle has too few members".to_owned()));
        }
        let open_time: u64 = match &members[0] {
            JsonValue::Unsigned(n) => *n,
            _ => {
                return Err(DataError::UpstreamFailure("invalid open time in candle".to_owned()));
            },
        };
        let open = match read_price(&members[1]) {
            Some(p) => p,
            None => {
                return Err(DataError::UpstreamFailure("invalid open price in candle".to_owned()));
            },
        };
        let high = match read_price(&members[2]) {
            Some(p) => p,
            None => {
                return Err(DataError::UpstreamFailure("invalid high price in candle".to_owned()));
            },
        };
        let low = match read_price(&members[3]) {
            Some(p) => p,
            None => {
                return Err(DataError::UpstreamFailure("invalid low price in candle".to_owned()));
            },
        };
        let close = match read_price(&members[4]) {
            Some(p) => p,
            None => {
                return Err(DataError::UpstreamFailure("invalid close price in candle".to_owned()));
            },
        };
        let volume = match read_amount(&members[5]) {
            Some(d) => d,
            None => {
                return Err(DataError::UpstreamFailure("invalid volume in candle".to_owned()));
            },
        };
        Ok(PricePoint { tick: (open_time / 1000) as i64, open, high, low, close, volume: Some(volume) })
    }

    /// Reads the candles of a feed's answer, leaving out every item that has not
    /// the form of a candle.
    pub fn convert_binance_to_price_points(&self, data_array: &Vec<JsonValue>) -> (points: Vec<PricePoint>)
        ensures
            describe_all(klines_among(data_array@), points@),
    {
        let mut points: Vec<PricePoint> = Vec::new();
        let mut i: usize = 0;
        proof {
            reveal(Seq::filter);
            assert(data_array@.take(0).len() == 0);
        }
        while i < data_array.len()
            invariant
                i <= data_array.len(),
                describe_all(klines_among(data_array@.take(i as int)), points@),
            decreases data_array.len() - i,
        {
            let ghost before = klines_among(data_array@.take(i as int));
            proof {
                reveal(Seq::filter);
                assert(data_array@.take(i + 1).drop_last() =~= data_array@.take(i as int));
            }
            match self.parse_binance_kline(&data_array[i]) {
                Ok(point) => {
                    points.push(point);
                    proof {
                        assert(klines_among(data_array@.take(i + 1)) =~= before.push(
                            data_array@[i as int],
                        ));
                    }
                },
                Err(_) => {},
            }
            i = i + 1;
        }
        proof {
            assert(data_array@.take(data_array.len() as int) =~= data_array@);
        }
        points
    }

    /// The candles of an answer of the feed.
    ///
    /// An answer with a failing status, one that is not JSON (`body` is `None`)
    /// and one that is not an array are upstream failures. An empty array is an
    /// empty series.
    pub fn price_points_from_response(&self, status_ok: bool, body: Option<JsonValue>) -> (result: Result<
        Vec<PricePoint>,
        DataError,
    >)
        ensures
            result is Ok <==> status_ok && (body matches Some(JsonValue::Array(_))),
            result matches Ok(points) ==> describe_all(
                klines_among(body->Some_0->Array_0@),
                points@,
            ),
            result matches Err(e) ==> e is UpstreamFailure,
    {
        if !status_ok {
            return Err(DataError::UpstreamFailure("the price feed answered with an error".to_owned()));
        }
        match body {
            Some(JsonValue::Array(items)) => Ok(self.convert_binance_to_price_points(&items)),
            Some(_) => Err(DataError::UpstreamFailure("the price feed did not answer with an array".to_owned())),
            None => Err(DataError::UpstreamFailure("the price feed did not answer with JSON".to_owned())),
        }
    }

    /// The feed's name for an interval given in minutes; an interval the feed
    /// does not offer is taken as one day.
    pub fn convert_interval_to_binance(&self, interval_minutes: u32) -> (name: String)
        ensures
            name@ == interval_name(interval_minutes),
    {
        let name: &str = match interval_minutes {
            1 => "1m",
            3 => "3m",
            5 => "5m",
            15 => "15m",
            30 => "30m",
            60 => "1h",
            120 => "2h",
            240 => "4h",
            360 => "6h",
            480 => "8h",
            720 => "12h",
            1440 => "1d",
            2880 => "3d",
            10080 => "1w",
            43200 => "1M",
            _ => "1d",
        };
        name.to_owned()
    }

    /// The name under which the feed knows a pair: both symbols in upper case,
    /// one after the other.
    pub fn binance_symbol(&self, token0: &str, token1: &str) -> (symbol: String)
        ensures
            symbol@ == uppercase_of(token0@) + uppercase_of(token1@),
    {
        let second = uppercase(token1);
        uppercase(token0).concat(second.as_str())
    }

    /// Where the feed is asked for the candles of a pair.
    pub fn kline_url(&self, token0: &str, token1: &str, interval_minutes: u32, limit: u32) -> (url:
        String)
        ensures
            url@ == self.base_url@ + "/klines?symbol="@ + (uppercase_of(token0@) + uppercase_of(
                token1@,
            )) + "&interval="@ + interval_name(interval_minutes) + "&limit="@ + number_text(
                limit as nat,
            ),
    {
        let symbol = self.binance_symbol(token0, token1);
        let interval = self.convert_interval_to_binance(interval_minutes);
        let count = format_number(limit as u64);
        self.base_url.clone().concat("/klines?symbol=").concat(symbol.as_str()).concat(
            "&interval=",
        ).concat(interval.as_str()).concat("&limit=").concat(count.as_str())
    }
}

} // verus!
