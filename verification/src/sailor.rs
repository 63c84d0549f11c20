//! The Sailor venue: its records, and how they become the canonical model.
//!
//! Sailor reports a fee tier in hundredths of a basis point and no yield. The
//! yield is estimated from a day's fees: `volume * fee / tvl * 365`, plus the
//! boost the venue adds, both as percentages.

use crate::decimal::{parsed_units, Decimal, FixedPrice};
use crate::decimal_text::{decimal_text, format_number, number_text};
use crate::text::{lowercase, lowercase_of};
use crate::model::{DecimalsValue, LiquidityTick, PricePoint, Token, UnifiedPool};
use vstd::prelude::*;
use vstd::string::*;

verus! {

/// Amounts at or below this many units (1000) mark a pool as inactive.
pub const ACTIVITY_FLOOR_UNITS: u64 = 100_000_000_000;

/// The divisor that turns a reported fee tier into a percentage.
pub const FEE_TIER_DIVISOR: u64 = 10_000;

#[derive(Debug)]
pub struct SailorTotalLiquidity {
    pub value: String,
}

#[derive(Debug)]
pub struct SailorTimePeriodStats {
    pub volume: Option<Decimal>,
    pub max_price: Option<Decimal>,
    pub min_price: Option<Decimal>,
    pub price: Option<Decimal>,
}

#[derive(Debug)]
pub struct SailorTokenInfo {
    pub id: String,
    pub symbol: String,
    pub name: String,
    pub decimals: String,
    pub price: Option<String>,
    pub url: String,
}

#[derive(Debug)]
pub struct SailorPoolStats {
    pub chain: String,
    pub fee_tier: String,
    pub id: String,
    pub protocol_version: String,
    pub total_liquidity: SailorTotalLiquidity,
    pub tx_count: String,
    pub day: SailorTimePeriodStats,
    pub week: SailorTimePeriodStats,
    pub month: SailorTimePeriodStats,
    pub boost_apr: Option<Decimal>,
    pub tvl: Option<Decimal>,
    pub token0: SailorTokenInfo,
    pub token1: SailorTokenInfo,
}

#[derive(Debug)]
pub struct SailorV3Tvl {
    pub timestamp_at_midnight: Option<Decimal>,
}

#[derive(Debug)]
pub struct SailorDailyProtocolTvl {
    pub v3: SailorV3Tvl,
}

#[derive(Debug)]
pub struct SailorPoolListResponse {
    pub status: String,
    pub daily_protocol_tvl: Option<SailorDailyProtocolTvl>,
    pub pool_stats: Vec<SailorPoolStats>,
}

/// One candle as Sailor reports it: opening time, open, high, low, close, volume.
#[derive(Clone, Copy, Debug)]
pub struct KlineData {
    pub time: i64,
    pub open: FixedPrice,
    pub high: FixedPrice,
    pub low: FixedPrice,
    pub close: FixedPrice,
    pub volume: Decimal,
}

#[derive(Debug)]
pub struct KlineResponse {
    pub success: bool,
    pub data: Vec<KlineData>,
}

/// Liquidity at one tick as Sailor reports it. The price stays as the venue
/// wrote it.
#[derive(Debug)]
pub struct ActiveLiquidity {
    pub tick: String,
    pub price: String,
    pub liquidity: String,
}

#[derive(Debug)]
pub struct ActiveLiquidityResponse {
    pub status: String,
    pub active_liquidity: Vec<ActiveLiquidity>,
    pub data: Vec<LiquidityTick>,
}

/// The units of an amount that may be absent; 0 where it is.
pub open spec fn units_or_zero(amount: Option<Decimal>) -> nat {
    match amount {
        Some(d) => d.units as nat,
        None => 0,
    }
}

/// The fee in units of percent that a reported fee tier stands for; 0 for a
/// tier that is not a number.
pub open spec fn fee_units(fee_tier: Seq<char>) -> nat {
    match parsed_units(fee_tier) {
        Some(units) => (units / FEE_TIER_DIVISOR) as nat,
        None => 0,
    }
}

/// The estimated yield in units of percent, rounded down to a whole unit.
pub open spec fn estimated_apr_units(volume: nat, fee: nat, tvl: nat, boost: nat) -> nat {
    if tvl > 0 {
        volume * fee * 365 / tvl + boost * 100
    } else {
        boost * 100
    }
}

/// The yield estimated for a pool.
pub open spec fn pool_apr_units(pool: SailorPoolStats) -> nat {
    estimated_apr_units(
        units_or_zero(pool.day.volume),
        fee_units(pool.fee_tier@),
        units_or_zero(pool.tvl),
        units_or_zero(pool.boost_apr),
    )
}

/// How a fee of `fee` units of percent is labelled.
pub open spec fn fee_label(fee: nat) -> Seq<char> {
    if fee > 0 {
        decimal_text(fee)
    } else {
        "N/A"@
    }
}

/// Whether `token` is the token that `info` describes.
pub open spec fn is_sailor_token(info: SailorTokenInfo, token: Token) -> bool {
    &&& token.id == info.id
    &&& token.name == info.name
    &&& token.symbol == info.symbol
    &&& token.url == info.url
    &&& token.decimals == DecimalsValue::Text(info.decimals)
    &&& !token.verified
}

/// Whether `unified` is the canonical form of `pool`. Amounts the venue left
/// out stay absent; the yield is absent only where it is too large to hold.
pub open spec fn is_sailor_pool(pool: SailorPoolStats, unified: UnifiedPool) -> bool {
    &&& unified.id == pool.id
    &&& unified.protocol@ == "Sailor"@
    &&& is_sailor_token(pool.token0, unified.token0)
    &&& is_sailor_token(pool.token1, unified.token1)
    &&& unified.tvl == pool.tvl
    &&& unified.daily_volume == pool.day.volume
    &&& unified.apr == if pool_apr_units(pool) <= u64::MAX {
        Some(Decimal { units: pool_apr_units(pool) as u64 })
    } else {
        None
    }
    &&& unified.fee_tier@ == fee_label(fee_units(pool.fee_tier@))
}

/// The yield in units of percent estimated from a day's volume, the fee, the
/// value locked and the boost; `None` where it exceeds what an amount holds.
pub fn estimate_apr(volume: Decimal, fee: Decimal, tvl: Decimal, boost: Decimal) -> (apr: Option<
    Decimal,
>)
    ensures
        apr == if estimated_apr_units(
            volume.units as nat,
            fee.units as nat,
            tvl.units as nat,
            boost.units as nat,
        ) <= u64::MAX {
            Some(
                Decimal {
                    units: estimated_apr_units(
                        volume.units as nat,
                        fee.units as nat,
                        tvl.units as nat,
                        boost.units as nat,
                    ) as u64,
                },
            )
        } else {
            None
        },
{
    let boosted: u128 = (boost.units as u128) * 100;
    let total: u128 = if tvl.units > 0 {
        proof {
            assert((volume.units as nat) * (fee.units as nat) <= 0xffff_ffff_ffff_ffff
                * 0xffff_ffff_ffff_ffff) by (nonlinear_arith)
                requires
                    volume.units <= 0xffff_ffff_ffff_ffff,
                    fee.units <= 0xffff_ffff_ffff_ffff,
            ;
        }
        let fees: u128 = (volume.units as u128) * (fee.units as u128);
        match fees.checked_mul(365) {
            Some(yearly) => {
                proof {
                    assert((volume.units as nat) * (fee.units as nat) * 365 == yearly);
                    assert(yearly as nat / (tvl.units as nat) <= yearly) by (nonlinear_arith)
                        requires
                            tvl.units >= 1,
                    ;
                }
                let earned: u128 = yearly / (tvl.units as u128);
                if earned > u64::MAX as u128 {
                    return None;
                }
                earned + boosted
            },
            None => {
                proof {
                    lemma_large_quotient((fees * 365) as int, tvl.units as int);
                    assert((volume.units as nat) * (fee.units as nat) * 365 == fees * 365);
                }
                return None;
            },
        }
    } else {
        boosted
    };
    if total <= u64::MAX as u128 {
        Some(Decimal::from_units(total as u64))
    } else {
        None
    }
}

/// A number of 2^128 or more, divided by one below 2^64, is 2^64 or more.
proof fn lemma_large_quotient(x: int, d: int)
    requires
        x >= 0x1_0000_0000_0000_0000_0000_0000_0000_0000,
        0 < d < 0x1_0000_0000_0000_0000,
    ensures
        x / d >= 0x1_0000_0000_0000_0000,
{
    let big: int = 0x1_0000_0000_0000_0000;
    assert(big * d <= x) by (nonlinear_arith)
        requires
            x >= big * big,
            0 < d < big,
    ;
    vstd::arithmetic::div_mod::lemma_div_is_ordered(big * d, x, d);
    vstd::arithmetic::div_mod::lemma_div_multiples_vanish(big, d);
    assert(d * big == big * d) by (nonlinear_arith);
}

/// The canonical token for a token of a Sailor pool.
fn transform_sailor_token(info: SailorTokenInfo) -> (token: Token)
    ensures
        is_sailor_token(info, token),
{
    Token {
        id: info.id,
        name: info.name,
        symbol: info.symbol,
        url: info.url,
        decimals: DecimalsValue::Text(info.decimals),
        verified: false,
    }
}

/// Whether an amount is reported and lies above the activity floor. An
/// amount that is absent does not.
pub open spec fn above_floor(amount: Option<Decimal>) -> bool {
    amount matches Some(d) && d.units > ACTIVITY_FLOOR_UNITS
}

/// Whether an amount is reported and lies above the activity floor of 1000.
pub fn is_above_floor(amount: &Option<Decimal>) -> (above: bool)
    ensures
        above == above_floor(*amount),
{
    match amount {
        Some(d) => d.units > ACTIVITY_FLOOR_UNITS,
        None => false,
    }
}

/// Whether a pool is listed: its daily volume and its value locked are both
/// above the floor.
pub open spec fn is_listed(pool: SailorPoolStats) -> bool {
    above_floor(pool.day.volume) && above_floor(pool.tvl)
}

/// A pool whose value locked the venue left out is not listed, whatever
/// else it reports: an absent amount is not above the floor, and is not
/// counted as zero either, for zero would be absent from the list as well
/// but for another reason.
pub proof fn lemma_absent_is_not_listed(pool: SailorPoolStats)
    ensures
        !above_floor(None),
        pool.tvl is None ==> !is_listed(pool),
        pool.day.volume is None ==> !is_listed(pool),
{
}

/// Whether `unified` are the canonical forms of `pools`, one for one.
pub open spec fn are_sailor_pools(pools: Seq<SailorPoolStats>, unified: Seq<UnifiedPool>) -> bool {
    &&& unified.len() == pools.len()
    &&& forall|i: int| 0 <= i < pools.len() ==> is_sailor_pool(#[trigger] pools[i], unified[i])
}

/// Whether `point` is the candle that `data` reports.
pub open spec fn is_sailor_candle(data: KlineData, point: PricePoint) -> bool {
    point == (PricePoint {
        tick: data.time,
        open: data.open,
        high: data.high,
        low: data.low,
        close: data.close,
        volume: Some(data.volume),
    })
}

/// Whether `tick` is the canonical form of `active`: the venue gives one
/// price, which is kept as written, and no second price, which is written `0`.
pub open spec fn is_sailor_tick(active: ActiveLiquidity, tick: LiquidityTick) -> bool {
    &&& tick.tick_idx == active.tick
    &&& tick.liquidity_net == active.liquidity
    &&& tick.price0 == active.price
    &&& tick.price1@ == "0"@
}

/// The Sailor venue, reached under a base address.
#[derive(Debug)]
pub struct SailorDataProvider {
    pub base_url: String,
}

/// The texts of `parts`, in order, with a comma between each two.
pub open spec fn comma_joined(parts: Seq<String>) -> Seq<char>
    decreases parts.len(),
{
    if parts.len() == 0 {
        Seq::empty()
    } else if parts.len() == 1 {
        parts[0]@
    } else {
        comma_joined(parts.drop_last()) + ","@ + parts.last()@
    }
}

impl SailorDataProvider {
    /// The venue reached under `base_url`.
    pub fn new(base_url: String) -> (provider: SailorDataProvider)
        ensures
            provider.base_url == base_url,
    {
        SailorDataProvider { base_url }
    }

    /// Converts a pool from Sailor's form to the canonical one.
    pub fn transform_sailor_pool(pool: SailorPoolStats) -> (unified: UnifiedPool)
        ensures
            is_sailor_pool(pool, unified),
    {
        let fee = match Decimal::parse(pool.fee_tier.as_str()) {
            Some(value) => Decimal::from_units(value.units / FEE_TIER_DIVISOR),
            None => Decimal::from_units(0),
        };
        let fee_tier = if fee.units > 0 {
            fee.to_text()
        } else {
            "N/A".to_owned()
        };
        let daily_volume = match pool.day.volume {
            Some(d) => d,
            None => Decimal::from_units(0),
        };
        let tvl = match pool.tvl {
            Some(d) => d,
            None => Decimal::from_units(0),
        };
        let boost_apr = match pool.boost_apr {
            Some(d) => d,
            None => Decimal::from_units(0),
        };
        let apr = estimate_apr(daily_volume, fee, tvl, boost_apr);
        UnifiedPool {
            id: pool.id,
            protocol: "Sailor".to_owned(),
            token0: transform_sailor_token(pool.token0),
            token1: transform_sailor_token(pool.token1),
            tvl: pool.tvl,
            daily_volume: pool.day.volume,
            apr,
            fee_tier,
        }
    }

    /// The pools of a Sailor pool list that are listed, in canonical form and in
    /// the order in which they came.
    pub fn get_pool_list(pool_stats: Vec<SailorPoolStats>) -> (pools: Vec<UnifiedPool>)
        ensures
            are_sailor_pools(pool_stats@.filter(|p: SailorPoolStats| is_listed(p)), pools@),
    {
        let ghost all = pool_stats@;
        let ghost listed = |p: SailorPoolStats| is_listed(p);
        let mut pools: Vec<UnifiedPool> = Vec::new();
        proof {
            reveal(Seq::filter);
            assert(all.take(0).len() == 0);
        }
        for pool in it: pool_stats
            invariant
                it.seq() == all,
                listed == |p: SailorPoolStats| is_listed(p),
                are_sailor_pools(all.take(it.index() as int).filter(listed), pools@),
        {
            let ghost i = it.index() as int;
            let ghost before = all.take(i).filter(listed);
            proof {
                reveal(Seq::filter);
                assert(pool == all[i]);
                assert(all.take(i + 1).drop_last() =~= all.take(i));
            }
            if is_above_floor(&pool.day.volume) && is_above_floor(&pool.tvl) {
                let unified = Self::transform_sailor_pool(pool);
                pools.push(unified);
                proof {
                    assert(all.take(i + 1).filter(listed) =~= before.push(all[i]));
                }
            }
        }
        proof {
            assert(all.take(all.len() as int) =~= all);
        }
        pools
    }

    /// The candles of a Sailor answer, in canonical form.
    pub fn get_price_data(response: &KlineResponse) -> (points: Vec<PricePoint>)
        ensures
            points@.len() == response.data@.len(),
            forall|i: int|
                0 <= i < points@.len() ==> is_sailor_candle(
                    #[trigger] response.data@[i],
                    points@[i],
                ),
    {
        let mut points: Vec<PricePoint> = Vec::new();
        let mut i: usize = 0;
        while i < response.data.len()
            invariant
                i <= response.data.len(),
                points@.len() == i,
                forall|k: int|
                    0 <= k < i ==> is_sailor_candle(#[trigger] response.data@[k], points@[k]),
            decreases response.data.len() - i,
        {
            let data = &response.data[i];
            points.push(
                PricePoint {
                    tick: data.time,
                    open: data.open,
                    high: data.high,
                    low: data.low,
                    close: data.close,
                    volume: Some(data.volume),
                },
            );
            i = i + 1;
        }
        points
    }

    /// Brings Sailor's answer on liquidity into the canonical form: the active
    /// liquidity becomes the ticks, and the list it came in is left empty.
    pub fn get_liquidity_data(response: ActiveLiquidityResponse) -> (canonical: ActiveLiquidityResponse)
        ensures
            canonical.status == response.status,
            canonical.active_liquidity@.len() == 0,
            canonical.data@.len() == response.active_liquidity@.len(),
            forall|i: int|
                0 <= i < canonical.data@.len() ==> is_sailor_tick(
                    #[trigger] response.active_liquidity@[i],
                    canonical.data@[i],
                ),
    {
        let ghost all = response.active_liquidity@;
        let status = response.status;
        let mut ticks: Vec<LiquidityTick> = Vec::new();
        for active in it: response.active_liquidity
            invariant
                it.seq() == all,
                ticks@.len() == it.index(),
                forall|k: int| 0 <= k < it.index() ==> is_sailor_tick(#[trigger] all[k], ticks@[k]),
        {
            ticks.push(
                LiquidityTick {
                    tick_idx: active.tick,
                    liquidity_net: active.liquidity,
                    price0: active.price,
                    price1: "0".to_owned(),
                },
            );
        }
        ActiveLiquidityResponse { status, active_liquidity: Vec::new(), data: ticks }
    }

    /// Where Sailor is asked for the candles of a pair.
    pub fn price_data_url(&self, token0: &str, token1: &str, interval_minutes: u32, limit: u32) -> (url:
        String)
        ensures
            url@ == self.base_url@ + "/sailor_kline_api/smart_kline/"@ + lowercase_of(token0@) + "/"@
                + lowercase_of(token1@) + "?interval="@ + number_text(interval_minutes as nat)
                + "&limit="@ + number_text(limit as nat),
    {
        let first = lowercase(token0);
        let second = lowercase(token1);
        let interval = format_number(interval_minutes as u64);
        let count = format_number(limit as u64);
        self.base_url.clone().concat("/sailor_kline_api/smart_kline/").concat(first.as_str()).concat(
            "/",
        ).concat(second.as_str()).concat("?interval=").concat(interval.as_str()).concat(
            "&limit=",
        ).concat(count.as_str())
    }

    /// Where Sailor is asked for the liquidity of a pool.
    pub fn liquidity_data_url(&self, pool_address: &str) -> (url: String)
        ensures
            url@ == self.base_url@ + "/sailor_poolapi/getActiveLiquidity?address="@ + pool_address@,
    {
        self.base_url.clone().concat("/sailor_poolapi/getActiveLiquidity?address=").concat(
            pool_address,
        )
    }

    /// Where Sailor is asked for its pools.
    pub fn pool_list_url(&self) -> (url: String)
        ensures
            url@ == self.base_url@ + "/sailor_poolapi/getPoolList"@,
    {
        self.base_url.clone().concat("/sailor_poolapi/getPoolList")
    }

    /// Where Sailor is asked for its tokens.
    pub fn token_list_url(&self) -> (url: String)
        ensures
            url@ == self.base_url@ + "/sailor_poolapi/getTokenListV2"@,
    {
        self.base_url.clone().concat("/sailor_poolapi/getTokenListV2")
    }

    /// Where Sailor is asked for the prices of the tokens at the given addresses.
    pub fn price_list_url(&self, token_addresses: &Vec<String>) -> (url: String)
        ensures
            url@ == self.base_url@ + "/sailor_poolapi/getPriceList?tokens="@ + comma_joined(
                token_addresses@,
            ),
    {
        let mut url = self.base_url.clone().concat("/sailor_poolapi/getPriceList?tokens=");
        let ghost head = url@;
        let mut i: usize = 0;
        while i < token_addresses.len()
            invariant
                i <= token_addresses.len(),
                url@ == head + comma_joined(token_addresses@.take(i as int)),
            decreases token_addresses.len() - i,
        {
            proof {
                assert(token_addresses@.take(i + 1).drop_last() =~= token_addresses@.take(i as int));
            }
            if i > 0 {
                url = url.concat(",");
            }
            url = url.concat(token_addresses[i].as_str());
            i = i + 1;
        }
        proof {
            assert(token_addresses@.take(token_addresses.len() as int) =~= token_addresses@);
        }
        url
    }
}

} // verus!
