//! The DragonSwap venue: its records, and how they become the canonical model.
//!
//! DragonSwap lists tokens and pools apart; a pool names its tokens by
//! address. The tokens are put into a directory, a map from address to token.
//! In a pool list, a pool whose token is not in the directory is left out. A
//! single address that is not in the directory resolves to a token named
//! `Unknown`.

use crate::decimal::Decimal;
use crate::decimal_text::decimal_text;
use crate::model::{DecimalsValue, LiquidityTick, Token, UnifiedPool};
use crate::sailor::{above_floor, is_above_floor, ActiveLiquidityResponse};
use crate::text::{lowercase, lowercase_of};
use vstd::hash_map::StringHashMap;
use vstd::prelude::*;
use vstd::string::*;

verus! {

#[derive(Debug)]
pub struct DragonSwapTick {
    pub tick_idx: String,
    pub liquidity_net: String,
    pub price0: String,
    pub price1: String,
    pub pool_address: String,
}

#[derive(Debug)]
pub struct DragonSwapTicksData {
    pub ticks: Vec<DragonSwapTick>,
}

#[derive(Debug)]
pub struct DragonSwapTicksResponse {
    pub data: DragonSwapTicksData,
}

#[derive(Debug)]
pub struct DragonSwapToken {
    pub address: String,
    pub name: String,
    pub symbol: String,
    pub usd_price: Option<Decimal>,
    pub decimals: i64,
}

#[derive(Debug)]
pub struct DragonSwapPool {
    pub pool_address: String,
    pub token0_address: String,
    pub token1_address: String,
    pub daily_volume: Option<Decimal>,
    pub liquidity: Option<Decimal>,
    pub pool_type: String,
    pub fee_tier: Option<Decimal>,
    pub apr: Option<Decimal>,
}

#[derive(Debug)]
pub struct DragonSwapResponse {
    pub status: String,
    pub tokens: Vec<DragonSwapToken>,
    pub pools: Vec<DragonSwapPool>,
}

/// Whether `tick` is the canonical form of `raw`.
pub open spec fn is_dragonswap_tick(raw: DragonSwapTick, tick: LiquidityTick) -> bool {
    &&& tick.tick_idx == raw.tick_idx
    &&& tick.liquidity_net == raw.liquidity_net
    &&& tick.price0 == raw.price0
    &&& tick.price1 == raw.price1
}

/// The precision of a token as DragonSwap reports it.
pub open spec fn reported_decimals(decimals: i64) -> DecimalsValue {
    if decimals >= 0 {
        DecimalsValue::Number(decimals as u64)
    } else {
        DecimalsValue::Other
    }
}

/// Whether `token` is the canonical form of `raw`.
pub open spec fn is_dragonswap_token(raw: DragonSwapToken, token: Token) -> bool {
    &&& token.id == raw.address
    &&& token.name == raw.name
    &&& token.symbol == raw.symbol
    &&& token.url@.len() == 0
    &&& token.decimals == reported_decimals(raw.decimals)
    &&& !token.verified
}

/// Whether `token` stands for an address that the directory does not hold.
pub open spec fn is_unknown_token(address: Seq<char>, token: Token) -> bool {
    &&& token.id@ == address
    &&& token.name@ == "Unknown"@
    &&& token.symbol@ == "Unknown"@
    &&& token.url@.len() == 0
    &&& token.decimals == DecimalsValue::Number(0)
    &&& !token.verified
}

/// The canonical form of a token of the directory.
fn canonical_token(raw: &DragonSwapToken) -> (token: Token)
    ensures
        is_dragonswap_token(*raw, token),
{
    Token {
        id: raw.address.clone(),
        name: raw.name.clone(),
        symbol: raw.symbol.clone(),
        url: String::new(),
        decimals: if raw.decimals >= 0 {
            DecimalsValue::Number(raw.decimals as u64)
        } else {
            DecimalsValue::Other
        },
        verified: false,
    }
}

/// Whether `i` is the place of the last token of `tokens` with the address
/// `address`.
pub open spec fn is_last_with_address(
    tokens: Seq<DragonSwapToken>,
    address: Seq<char>,
    i: int,
) -> bool {
    &&& 0 <= i < tokens.len()
    &&& tokens[i].address@ == address
    &&& forall|k: int| i < k < tokens.len() ==> (#[trigger] tokens[k]).address@ != address
}

/// The directory of `tokens`: each address with the token listed under it.
/// Where an address is listed twice, the later entry stands.
pub open spec fn directory_of(tokens: Seq<DragonSwapToken>) -> Map<Seq<char>, DragonSwapToken>
    decreases tokens.len(),
{
    if tokens.len() == 0 {
        Map::empty()
    } else {
        directory_of(tokens.drop_last()).insert(tokens.last().address@, tokens.last())
    }
}

/// The directory of `tokens` under their addresses in lower case.
pub open spec fn folded_directory_of(tokens: Seq<DragonSwapToken>) -> Map<
    Seq<char>,
    DragonSwapToken,
>
    decreases tokens.len(),
{
    if tokens.len() == 0 {
        Map::empty()
    } else {
        folded_directory_of(tokens.drop_last()).insert(
            lowercase_of(tokens.last().address@),
            tokens.last(),
        )
    }
}

/// The directory holds an address exactly when some token is listed under
/// it, and then it holds the last such token.
pub proof fn lemma_directory_holds_last(tokens: Seq<DragonSwapToken>, address: Seq<char>)
    ensures
        directory_of(tokens).contains_key(address) <==> exists|i: int|
            0 <= i < tokens.len() && (#[trigger] tokens[i]).address@ == address,
        directory_of(tokens).contains_key(address) ==> exists|i: int|
            #[trigger] is_last_with_address(tokens, address, i) && directory_of(tokens)[address]
                == tokens[i],
    decreases tokens.len(),
{
    if tokens.len() > 0 {
        let head = tokens.drop_last();
        let last = tokens.len() - 1;
        lemma_directory_holds_last(head, address);
        if tokens[last].address@ == address {
            assert(is_last_with_address(tokens, address, last));
        } else if directory_of(head).contains_key(address) {
            let i = choose|i: int|
                #[trigger] is_last_with_address(head, address, i) && directory_of(head)[address]
                    == head[i];
            assert(head[i] == tokens[i]);
            assert forall|k: int| i < k < tokens.len() implies (#[trigger] tokens[k]).address@
                != address by {
                if k < last {
                    assert(head[k] == tokens[k]);
                }
            }
            assert(is_last_with_address(tokens, address, i));
        } else {
            assert forall|i: int| 0 <= i < tokens.len() implies (#[trigger] tokens[i]).address@
                != address by {
                if i < last {
                    assert(head[i] == tokens[i]);
                }
            }
        }
        if exists|i: int| 0 <= i < head.len() && (#[trigger] head[i]).address@ == address {
            let i = choose|i: int| 0 <= i < head.len() && (#[trigger] head[i]).address@ == address;
            assert(tokens[i] == head[i]);
        }
    }
}

/// A copy of a token of the directory.
fn clone_token(token: &DragonSwapToken) -> (copy: DragonSwapToken)
    ensures
        copy == *token,
{
    DragonSwapToken {
        address: token.address.clone(),
        name: token.name.clone(),
        symbol: token.symbol.clone(),
        usd_price: token.usd_price,
        decimals: token.decimals,
    }
}

/// Whether `unified` is the canonical form of `pool`, whose tokens are
/// `token0` and `token1`.
pub open spec fn is_dragonswap_pool(
    pool: DragonSwapPool,
    token0: DragonSwapToken,
    token1: DragonSwapToken,
    unified: UnifiedPool,
) -> bool {
    &&& unified.id == pool.pool_address
    &&& unified.protocol@ == "DragonSwap"@
    &&& is_dragonswap_token(token0, unified.token0)
    &&& is_dragonswap_token(token1, unified.token1)
    &&& unified.tvl == pool.liquidity
    &&& unified.daily_volume == pool.daily_volume
    &&& unified.apr == pool.apr
    &&& unified.fee_tier@ == match pool.fee_tier {
        Some(fee) => decimal_text(fee.units as nat),
        None => "unknown"@,
    }
}

/// Whether the directory holds both tokens of a pool.
pub open spec fn holds_tokens(pool: DragonSwapPool, directory: Map<Seq<char>, DragonSwapToken>) -> bool {
    directory.contains_key(pool.token0_address@) && directory.contains_key(pool.token1_address@)
}

/// Whether a pool is listed: it is of the concentrated-liquidity kind, the
/// directory holds both its tokens, and its daily volume is above the floor.
pub open spec fn is_listed(pool: DragonSwapPool, directory: Map<Seq<char>, DragonSwapToken>) -> bool {
    &&& pool.pool_type@ == "V3_POOL"@
    &&& holds_tokens(pool, directory)
    &&& above_floor(pool.daily_volume)
}

/// Whether `unified` is the canonical form of `pool` with its tokens taken
/// from the directory.
pub open spec fn is_canonical(
    pool: DragonSwapPool,
    directory: Map<Seq<char>, DragonSwapToken>,
    unified: UnifiedPool,
) -> bool {
    is_dragonswap_pool(
        pool,
        directory[pool.token0_address@],
        directory[pool.token1_address@],
        unified,
    )
}

/// Whether `unified` are the canonical forms of `pools`, one for one.
pub open spec fn are_dragonswap_pools(
    pools: Seq<DragonSwapPool>,
    directory: Map<Seq<char>, DragonSwapToken>,
    unified: Seq<UnifiedPool>,
) -> bool {
    &&& unified.len() == pools.len()
    &&& forall|i: int|
        0 <= i < pools.len() ==> is_canonical(#[trigger] pools[i], directory, unified[i])
}

/// The token that stands for an address the directory does not hold.
fn unknown_token(address: &str) -> (token: Token)
    ensures
        is_unknown_token(address@, token),
{
    Token {
        id: address.to_owned(),
        name: "Unknown".to_owned(),
        symbol: "Unknown".to_owned(),
        url: String::new(),
        decimals: DecimalsValue::Number(0),
        verified: false,
    }
}

/// The DragonSwap venue, reached under a base address.
#[derive(Debug)]
pub struct DragonSwapDataProvider {
    pub base_url: String,
}

impl DragonSwapDataProvider {
    /// The venue reached under `base_url`.
    pub fn new(base_url: String) -> (provider: DragonSwapDataProvider)
        ensures
            provider.base_url == base_url,
    {
        DragonSwapDataProvider { base_url }
    }

    /// Brings DragonSwap's ticks into the canonical form.
    pub fn get_liquidity_data(response: DragonSwapTicksResponse) -> (canonical:
        ActiveLiquidityResponse)
        ensures
            canonical.status@.len() == 0,
            canonical.active_liquidity@.len() == 0,
            canonical.data@.len() == response.data.ticks@.len(),
            forall|i: int|
                0 <= i < canonical.data@.len() ==> is_dragonswap_tick(
                    #[trigger] response.data.ticks@[i],
                    canonical.data@[i],
                ),
    {
        let ghost all = response.data.ticks@;
        let mut ticks: Vec<LiquidityTick> = Vec::new();
        for raw in it: response.data.ticks
            invariant
                it.seq() == all,
                ticks@.len() == it.index(),
                forall|k: int|
                    0 <= k < it.index() ==> is_dragonswap_tick(#[trigger] all[k], ticks@[k]),
        {
            ticks.push(
                LiquidityTick {
                    tick_idx: raw.tick_idx,
                    liquidity_net: raw.liquidity_net,
                    price0: raw.price0,
                    price1: raw.price1,
                },
            );
        }
        ActiveLiquidityResponse { status: String::new(), active_liquidity: Vec::new(), data: ticks }
    }

    /// The directory of a list of tokens: a map from each address to the
    /// token listed under it.
    pub fn token_directory(tokens: Vec<DragonSwapToken>) -> (token_map: StringHashMap<
        DragonSwapToken,
    >)
        ensures
            token_map@ == directory_of(tokens@),
    {
        let ghost all = tokens@;
        let mut token_map: StringHashMap<DragonSwapToken> = StringHashMap::new();
        proof {
            assert(all.take(0).len() == 0);
        }
        for token in it: tokens
            invariant
                it.seq() == all,
                token_map@ == directory_of(all.take(it.index() as int)),
        {
            proof {
                let i = it.index() as int;
                assert(all.take(i + 1).drop_last() =~= all.take(i));
                assert(all.take(i + 1).last() == token);
            }
            token_map.insert(token.address.clone(), token);
        }
        proof {
            assert(all.take(all.len() as int) =~= all);
        }
        token_map
    }

    /// Converts a pool from DragonSwap's form to the canonical one; `None`
    /// where the directory lacks one of its tokens.
    pub fn transform_dragonswap_pool(
        pool: DragonSwapPool,
        token_map: &StringHashMap<DragonSwapToken>,
    ) -> (unified: Option<UnifiedPool>)
        ensures
            unified is Some <==> holds_tokens(pool, token_map@),
            unified matches Some(u) ==> is_canonical(pool, token_map@, u),
    {
        let token0 = match token_map.get(pool.token0_address.as_str()) {
            Some(token) => token,
            None => {
                return None;
            },
        };
        let token1 = match token_map.get(pool.token1_address.as_str()) {
            Some(token) => token,
            None => {
                return None;
            },
        };
        let fee_tier = match &pool.fee_tier {
            Some(fee) => fee.to_text(),
            None => "unknown".to_owned(),
        };
        Some(
            UnifiedPool {
                id: pool.pool_address,
                protocol: "DragonSwap".to_owned(),
                token0: canonical_token(token0),
                token1: canonical_token(token1),
                tvl: pool.liquidity,
                daily_volume: pool.daily_volume,
                apr: pool.apr,
                fee_tier,
            },
        )
    }

    /// The pools of a DragonSwap answer that are listed, in canonical form
    /// and in the order in which they came.
    pub fn get_pool_list(response: DragonSwapResponse) -> (pools: Vec<UnifiedPool>)
        ensures
            are_dragonswap_pools(
                response.pools@.filter(
                    |p: DragonSwapPool| is_listed(p, directory_of(response.tokens@)),
                ),
                directory_of(response.tokens@),
                pools@,
            ),
    {
        let ghost all = response.pools@;
        let ghost directory = directory_of(response.tokens@);
        let token_map = Self::token_directory(response.tokens);
        let ghost listed = |p: DragonSwapPool| is_listed(p, directory);
        let kind = "V3_POOL".to_owned();
        let mut pools: Vec<UnifiedPool> = Vec::new();
        proof {
            reveal(Seq::filter);
            assert(all.take(0).len() == 0);
        }
        for pool in it: response.pools
            invariant
                it.seq() == all,
                kind@ == "V3_POOL"@,
                token_map@ == directory,
                listed == |p: DragonSwapPool| is_listed(p, directory),
                are_dragonswap_pools(all.take(it.index() as int).filter(listed), directory, pools@),
        {
            let ghost i = it.index() as int;
            let ghost before = all.take(i).filter(listed);
            proof {
                reveal(Seq::filter);
                assert(pool == all[i]);
                assert(all.take(i + 1).drop_last() =~= all.take(i));
            }
            if pool.pool_type == kind && is_above_floor(&pool.daily_volume) {
                match Self::transform_dragonswap_pool(pool, &token_map) {
                    Some(unified) => {
                        pools.push(unified);
                        proof {
                            assert(all.take(i + 1).filter(listed) =~= before.push(all[i]));
                        }
                    },
                    None => {},
                }
            }
        }
        proof {
            assert(all.take(all.len() as int) =~= all);
        }
        pools
    }

    /// Resolves an address to a token, comparing addresses without regard
    /// to case. Without a directory (`None`: the venue did not answer), and
    /// for an address that the directory does not hold, the token is named
    /// `Unknown`.
    pub fn transform_token_address_to_symbol(
        directory: Option<&Vec<DragonSwapToken>>,
        address: &str,
    ) -> (token: Token)
        ensures
            match directory {
                Some(tokens) => if folded_directory_of(tokens@).contains_key(
                    lowercase_of(address@),
                ) {
                    is_dragonswap_token(
                        folded_directory_of(tokens@)[lowercase_of(address@)],
                        token,
                    )
                } else {
                    is_unknown_token(address@, token)
                },
                None => is_unknown_token(address@, token),
            },
    {
        match directory {
            Some(tokens) => {
                let mut token_map: StringHashMap<DragonSwapToken> = StringHashMap::new();
                let mut i: usize = 0;
                proof {
                    assert(tokens@.take(0).len() == 0);
                }
                while i < tokens.len()
                    invariant
                        i <= tokens.len(),
                        token_map@ == folded_directory_of(tokens@.take(i as int)),
                    decreases tokens.len() - i,
                {
                    proof {
                        assert(tokens@.take(i + 1).drop_last() =~= tokens@.take(i as int));
                        assert(tokens@.take(i + 1).last() == tokens@[i as int]);
                    }
                    token_map.insert(
                        lowercase(tokens[i].address.as_str()),
                        clone_token(&tokens[i]),
                    );
                    i = i + 1;
                }
                proof {
                    assert(tokens@.take(tokens.len() as int) =~= tokens@);
                }
                let wanted = lowercase(address);
                match token_map.get(wanted.as_str()) {
                    Some(found) => canonical_token(found),
                    None => unknown_token(address),
                }
            },
            None => unknown_token(address),
        }
    }

    /// Where DragonSwap is asked for the ticks of a pool.
    pub fn liquidity_data_url(&self, pool_address: &str) -> (url: String)
        ensures
            url@ == self.base_url@ + "/graph/factory/ticks?pool_address="@ + pool_address@
                + "&skip=0"@,
    {
        self.base_url.clone().concat("/graph/factory/ticks?pool_address=").concat(
            pool_address,
        ).concat("&skip=0")
    }

    /// Where DragonSwap is asked for its tokens and pools.
    pub fn pool_list_url(&self) -> (url: String)
        ensures
            url@ == self.base_url@ + "/pools"@,
    {
        self.base_url.clone().concat("/pools")
    }

    /// Where DragonSwap is asked whether a pool is its own. It answers with
    /// success for its own pools and with an error for every other address.
    pub fn pool_url(&self, pool_address: &str) -> (url: String)
        ensures
            url@ == self.base_url@ + "/pools/"@ + pool_address@,
    {
        self.base_url.clone().concat("/pools/").concat(pool_address)
    }
}

} // verus!
