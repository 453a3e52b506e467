//! The tick query operation: validating the caller's range parameters,
//! resolving the effective lens contract address, and mapping the decoded
//! contract response into typed records.
//!
//! The operation is split around its single network call. The caller first
//! runs [`prepare_tick_query`], which either rejects the inputs or yields a
//! [`TickQueryCall`] holding the effective contract address and the verbatim
//! call arguments. The caller then performs the read-only contract call and
//! hands its outcome — the decoded response, or the description of the
//! failure — to [`complete_tick_query`].

use vstd::prelude::*;
use crate::address::Address;
use crate::address::is_zero_address;
use crate::address::lemma_uni_obrv_nonzero;
use crate::address::uni_obrv;
use crate::address::uni_obrv_bytes;
use crate::error::Error;
use crate::wide::U256;

verus! {

/// The smallest representable tick: the minimum of a signed 24-bit integer.
pub const TICK_MIN: i32 = -8388608;

/// The largest representable tick: the maximum of a signed 24-bit integer.
pub const TICK_MAX: i32 = 8388607;

/// One populated tick record of the query result. Field values are copied
/// verbatim from the corresponding raw entry of the contract response.
#[derive(Debug, Clone, Copy, PartialEq, Eq, Structural)]
pub struct PopulatedTick {
    /// The discretized price point, within `[TICK_MIN, TICK_MAX]`.
    pub tick: i32,
    /// The net liquidity change when the tick is crossed.
    pub liquidity_net: i128,
    /// The total liquidity referencing the tick.
    pub liquidity_gross: u128,
    /// The first fee-growth accumulator outside the tick.
    pub fee_growth_outside_0x128: U256,
    /// The second fee-growth accumulator outside the tick.
    pub fee_growth_outside_1x128: U256,
}

/// One raw tick entry as decoded from the contract response.
#[derive(Debug, Clone, Copy, PartialEq, Eq, Structural)]
pub struct TickEntry {
    /// The discretized price point.
    pub tick: i32,
    /// The net liquidity change when the tick is crossed.
    pub liquidity_net: i128,
    /// The total liquidity referencing the tick.
    pub liquidity_gross: u128,
    /// The first fee-growth accumulator outside the tick.
    pub fee_growth_outside_0x128: U256,
    /// The second fee-growth accumulator outside the tick.
    pub fee_growth_outside_1x128: U256,
}

/// The decoded contract response: the populated tick entries, in the order
/// the contract returned them, and the pool's tick spacing.
#[derive(Debug)]
pub struct TickDataResponse {
    /// The raw tick entries.
    pub populated_ticks: Vec<TickEntry>,
    /// The pool's tick granularity.
    pub tick_spacing: i32,
}

/// A validated, ready-to-send contract call: the effective contract address
/// and the verbatim arguments of the tick-data read.
#[derive(Debug)]
pub struct TickQueryCall {
    /// The lens contract to call, after override-or-default resolution.
    pub contract: Address,
    /// The pool being queried.
    pub pool: Address,
    /// The lower tick bound of the range.
    pub tick_lower: i32,
    /// The upper tick bound of the range.
    pub tick_upper: i32,
    /// The upper bound on the number of records the contract may return.
    pub max_ticks: U256,
}

/// The first validation failure for the given arguments, if any. The checks
/// run in order and the first match wins: zero pool address, inverted tick
/// range, then tick bounds outside the representable tick range.
pub open spec fn validation_failure(pool: Seq<u8>, tick_lower: int, tick_upper: int) -> Option<
    Error,
> {
    if is_zero_address(pool) {
        Some(Error::InvalidPoolAddress)
    } else if tick_lower > tick_upper {
        Some(Error::InvalidTickRange)
    } else if tick_lower < TICK_MIN || tick_upper > TICK_MAX {
        Some(Error::TicksOutOfRange)
    } else {
        None
    }
}

/// The effective contract address for a given override: the default lens
/// contract when the override is the zero sentinel, the override itself
/// otherwise.
pub open spec fn resolved_contract(override_bytes: Seq<u8>) -> Seq<u8> {
    if is_zero_address(override_bytes) {
        uni_obrv_bytes()
    } else {
        override_bytes
    }
}

/// The record produced from one raw entry: a field-for-field copy, with no
/// transformation.
pub open spec fn mapped_entry(e: TickEntry) -> PopulatedTick {
    PopulatedTick {
        tick: e.tick,
        liquidity_net: e.liquidity_net,
        liquidity_gross: e.liquidity_gross,
        fee_growth_outside_0x128: e.fee_growth_outside_0x128,
        fee_growth_outside_1x128: e.fee_growth_outside_1x128,
    }
}

/// Validates the query parameters: fails on the zero pool address, on an
/// inverted tick range, and on tick bounds outside the representable range,
/// in that order, and accepts everything else.
pub fn validate_query(pool: &Address, tick_lower: i32, tick_upper: i32) -> (r: Result<(), Error>)
    ensures
        match r {
            Ok(()) => validation_failure(pool@, tick_lower as int, tick_upper as int) is None,
            Err(e) => validation_failure(pool@, tick_lower as int, tick_upper as int) == Some(e),
        },
{
    if pool.is_zero() {
        return Err(Error::InvalidPoolAddress);
    }
    if tick_lower > tick_upper {
        return Err(Error::InvalidTickRange);
    }
    if tick_lower < TICK_MIN || tick_upper > TICK_MAX {
        return Err(Error::TicksOutOfRange);
    }
    Ok(())
}

/// Resolves the effective lens contract address: the hard-coded default when
/// the override is the zero sentinel, the override itself otherwise.
pub fn resolve_contract_address(uni_obrv_address: Address) -> (r: Address)
    ensures
        r@ == resolved_contract(uni_obrv_address@),
{
    if uni_obrv_address.is_zero() {
        uni_obrv()
    } else {
        uni_obrv_address
    }
}

/// Validates the query parameters and, when they pass, binds the effective
/// contract address to the verbatim call arguments. A returned call value is
/// exactly what the remote read must be issued with; an error is the first
/// validation failure and means the call must not be attempted.
pub fn prepare_tick_query(
    pool: Address,
    tick_lower: i32,
    tick_upper: i32,
    max_ticks: U256,
    uni_obrv_address: Address,
) -> (r: Result<TickQueryCall, Error>)
    ensures
        match r {
            Ok(call) => {
                &&& validation_failure(pool@, tick_lower as int, tick_upper as int) is None
                &&& call.contract@ == resolved_contract(uni_obrv_address@)
                &&& call.pool@ == pool@
                &&& call.tick_lower == tick_lower
                &&& call.tick_upper == tick_upper
                &&& call.max_ticks == max_ticks
            },
            Err(e) => validation_failure(pool@, tick_lower as int, tick_upper as int) == Some(e),
        },
{
    match validate_query(&pool, tick_lower, tick_upper) {
        Ok(()) => Ok(
            TickQueryCall {
                contract: resolve_contract_address(uni_obrv_address),
                pool,
                tick_lower,
                tick_upper,
                max_ticks,
            },
        ),
        Err(e) => Err(e),
    }
}

/// Maps the decoded contract response to the query result: one record per
/// raw entry, each a verbatim field copy, in the order the contract returned
/// them, paired with the contract-reported tick spacing.
pub fn map_tick_data(response: TickDataResponse) -> (r: (Vec<PopulatedTick>, i32))
    ensures
        r.0@.len() == response.populated_ticks@.len(),
        forall|i: int|
            0 <= i < r.0@.len() ==> r.0@[i] == mapped_entry(response.populated_ticks@[i]),
        r.1 == response.tick_spacing,
{
    let mut records: Vec<PopulatedTick> = Vec::new();
    let n = response.populated_ticks.len();
    let mut i: usize = 0;
    while i < n
        invariant
            n == response.populated_ticks@.len(),
            0 <= i <= n,
            records@.len() == i,
            forall|j: int|
                0 <= j < i ==> records@[j] == mapped_entry(response.populated_ticks@[j]),
        decreases n - i,
    {
        let e = response.populated_ticks[i];
        records.push(
            PopulatedTick {
                tick: e.tick,
                liquidity_net: e.liquidity_net,
                liquidity_gross: e.liquidity_gross,
                fee_growth_outside_0x128: e.fee_growth_outside_0x128,
                fee_growth_outside_1x128: e.fee_growth_outside_1x128,
            },
        );
        i = i + 1;
    }
    (records, response.tick_spacing)
}

/// Finishes the query from the outcome of the remote call. A decoded
/// response is mapped verbatim into records; a failure description is
/// wrapped, unchanged, in [`Error::ContractCall`] — never a partial success.
pub fn complete_tick_query(outcome: Result<TickDataResponse, String>) -> (r: Result<
    (Vec<PopulatedTick>, i32),
    Error,
>)
    ensures
        match outcome {
            Ok(response) => match r {
                Ok(out) => {
                    &&& out.0@.len() == response.populated_ticks@.len()
                    &&& forall|i: int|
                        0 <= i < out.0@.len() ==> out.0@[i] == mapped_entry(
                            response.populated_ticks@[i],
                        )
                    &&& out.1 == response.tick_spacing
                },
                Err(_) => false,
            },
            Err(d) => r matches Err(e) && e == Error::ContractCall(d),
        },
{
    match outcome {
        Ok(response) => Ok(map_tick_data(response)),
        Err(description) => Err(Error::ContractCall(description)),
    }
}

/// For the all-zero pool address, validation fails with
/// [`Error::InvalidPoolAddress`] whatever the other arguments are.
pub proof fn lemma_zero_pool_rejected(pool: Seq<u8>, tick_lower: int, tick_upper: int)
    requires
        is_zero_address(pool),
    ensures
        validation_failure(pool, tick_lower, tick_upper) == Some(Error::InvalidPoolAddress),
{
}

/// For a non-sentinel pool and an inverted range — lower bound above the
/// upper bound — validation fails with [`Error::InvalidTickRange`].
pub proof fn lemma_inverted_range_rejected(pool: Seq<u8>, tick_lower: int, tick_upper: int)
    requires
        !is_zero_address(pool),
        tick_lower > tick_upper,
    ensures
        validation_failure(pool, tick_lower, tick_upper) == Some(Error::InvalidTickRange),
{
}

/// For a non-sentinel pool and an ordered range within the representable
/// tick range, validation passes: the remote call is attempted, with no
/// local short-circuit failure.
pub proof fn lemma_valid_range_accepted(pool: Seq<u8>, tick_lower: int, tick_upper: int)
    requires
        !is_zero_address(pool),
        tick_lower <= tick_upper,
        TICK_MIN <= tick_lower,
        tick_upper <= TICK_MAX,
    ensures
        validation_failure(pool, tick_lower, tick_upper) is None,
{
}

/// Default-address substitution is idempotent: a zero override and an
/// override set explicitly to the hard-coded default resolve to the same
/// effective contract address.
pub proof fn lemma_default_substitution(override_bytes: Seq<u8>)
    requires
        is_zero_address(override_bytes),
    ensures
        resolved_contract(override_bytes) == resolved_contract(uni_obrv_bytes()),
{
    lemma_uni_obrv_nonzero();
}

} // verus!
