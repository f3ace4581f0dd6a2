use vstd::prelude::*;

use crate::hashing::{instruction_discriminator, spec_discriminator};
use crate::seeds::{buy_exact_in_name, buy_exact_in_name_bytes, initialize_v2_name, initialize_v2_name_bytes};

verus! {

/// Total supply minted for every launch, in base units.
pub const CURVE_SUPPLY: u64 = 1000000000000000;

/// Base units put up for sale on the curve for every launch.
pub const CURVE_TOTAL_BASE_SELL: u64 = 793100000000000;

/// Fund-raising target of the plain create entry point, in quote base units.
pub const CREATE_FUND_RAISING_TARGET: u64 = 12500000000;

/// Fund-raising target of the atomic entry point, in quote base units.
pub const ATOMIC_FUND_RAISING_TARGET: u64 = 30000000000;

/// Migration mode forwarded with every launch.
pub const CURVE_MIGRATE_TYPE: u8 = 1;

/// Decimal places of every launched asset.
pub const MINT_DECIMALS: u8 = 6;

/// Caller-supplied launch parameters: the asset's name, symbol and
/// metadata location, as plain bytes.
pub struct LaunchTokenArgs {
    pub name: Vec<u8>,
    pub symbol: Vec<u8>,
    pub uri: Vec<u8>,
}

impl LaunchTokenArgs {
    /// Each field must fit a four-byte length prefix.
    pub open spec fn wf(&self) -> bool {
        &&& self.name@.len() <= u32::MAX
        &&& self.symbol@.len() <= u32::MAX
        &&& self.uri@.len() <= u32::MAX
    }
}

/// The four little-endian bytes of a 32-bit value.
pub open spec fn le_u32(x: u32) -> Seq<u8> {
    seq![
        (x & 0xff) as u8,
        ((x >> 8) & 0xff) as u8,
        ((x >> 16) & 0xff) as u8,
        ((x >> 24) & 0xff) as u8,
    ]
}

/// The eight little-endian bytes of a 64-bit value.
pub open spec fn le_u64(x: u64) -> Seq<u8> {
    seq![
        (x & 0xff) as u8,
        ((x >> 8) & 0xff) as u8,
        ((x >> 16) & 0xff) as u8,
        ((x >> 24) & 0xff) as u8,
        ((x >> 32) & 0xff) as u8,
        ((x >> 40) & 0xff) as u8,
        ((x >> 48) & 0xff) as u8,
        ((x >> 56) & 0xff) as u8,
    ]
}

/// A byte string under a four-byte little-endian length prefix.
pub open spec fn length_prefixed(b: Seq<u8>) -> Seq<u8> {
    le_u32(b.len() as u32) + b
}

/// The mint-parameter segment of a launch call: the three caller strings,
/// each length-prefixed, then the fixed decimals.
pub open spec fn spec_mint_params(name: Seq<u8>, symbol: Seq<u8>, uri: Seq<u8>) -> Seq<u8> {
    length_prefixed(name) + length_prefixed(symbol) + length_prefixed(uri) + seq![MINT_DECIMALS]
}

/// The constant-curve segment of a launch call: the constant-curve variant
/// tag, the fixed supply and sale constants, the entry point's fund-raising
/// target and the fixed migration mode.
pub open spec fn spec_curve_params(fund_raising_target: u64) -> Seq<u8> {
    seq![0u8] + le_u64(CURVE_SUPPLY) + le_u64(CURVE_TOTAL_BASE_SELL) + le_u64(fund_raising_target)
        + seq![CURVE_MIGRATE_TYPE]
}

/// The vesting segment of a launch call: no locked amount, no cliff, no
/// unlock period.
pub open spec fn spec_vesting_params() -> Seq<u8> {
    le_u64(0) + le_u64(0) + le_u64(0)
}

/// The fee-routing segment of a launch call: fees on the quote token.
pub open spec fn spec_amm_fee_on() -> Seq<u8> {
    seq![0u8]
}

/// Everything of a launch payload that does not come from the caller: the
/// curve constants for the given target, the vesting zeros and the fee mode.
pub open spec fn spec_fixed_tail(fund_raising_target: u64) -> Seq<u8> {
    spec_curve_params(fund_raising_target) + spec_vesting_params() + spec_amm_fee_on()
}

/// The full payload of a forwarded launch call: the external program's
/// creation fingerprint, the mint parameters, then the fixed tail.
pub open spec fn spec_initialize_data(
    name: Seq<u8>,
    symbol: Seq<u8>,
    uri: Seq<u8>,
    fund_raising_target: u64,
) -> Seq<u8> {
    spec_discriminator(initialize_v2_name()) + spec_mint_params(name, symbol, uri)
        + spec_fixed_tail(fund_raising_target)
}

/// The full payload of a forwarded trade call: the external program's trade
/// fingerprint, then the three caller-chosen amounts.
pub open spec fn spec_buy_data(amount_in: u64, minimum_amount_out: u64, share_fee_rate: u64) -> Seq<
    u8,
> {
    spec_discriminator(buy_exact_in_name()) + le_u64(amount_in) + le_u64(minimum_amount_out)
        + le_u64(share_fee_rate)
}

/// Appends the four little-endian bytes of a 32-bit value.
pub fn push_u32_le(out: &mut Vec<u8>, x: u32)
    ensures
        final(out)@ == old(out)@ + le_u32(x),
{
    out.push((x & 0xff) as u8);
    out.push(((x >> 8) & 0xff) as u8);
    out.push(((x >> 16) & 0xff) as u8);
    out.push(((x >> 24) & 0xff) as u8);
    proof {
        assert(out@ =~= old(out)@ + le_u32(x));
    }
}

/// Appends the eight little-endian bytes of a 64-bit value.
pub fn push_u64_le(out: &mut Vec<u8>, x: u64)
    ensures
        final(out)@ == old(out)@ + le_u64(x),
{
    out.push((x & 0xff) as u8);
    out.push(((x >> 8) & 0xff) as u8);
    out.push(((x >> 16) & 0xff) as u8);
    out.push(((x >> 24) & 0xff) as u8);
    out.push(((x >> 32) & 0xff) as u8);
    out.push(((x >> 40) & 0xff) as u8);
    out.push(((x >> 48) & 0xff) as u8);
    out.push(((x >> 56) & 0xff) as u8);
    proof {
        assert(out@ =~= old(out)@ + le_u64(x));
    }
}

/// Appends a byte string under its four-byte length prefix.
pub fn push_length_prefixed(out: &mut Vec<u8>, b: &Vec<u8>)
    requires
        b@.len() <= u32::MAX,
    ensures
        final(out)@ == old(out)@ + length_prefixed(b@),
{
    push_u32_le(out, b.len() as u32);
    let n: usize = b.len();
    let mut i: usize = 0;
    while i < n
        invariant
            n == b@.len(),
            i <= n,
            out@ == old(out)@ + le_u32(b@.len() as u32) + b@.subrange(0, i as int),
        decreases n - i,
    {
        out.push(b[i]);
        proof {
            assert(out@ =~= old(out)@ + le_u32(b@.len() as u32) + b@.subrange(0, i + 1));
        }
        i += 1;
    }
    proof {
        assert(b@.subrange(0, n as int) =~= b@);
        assert(out@ =~= old(out)@ + length_prefixed(b@));
    }
}

/// Builds the payload of a forwarded launch call for the given caller
/// parameters and fund-raising target.
pub fn encode_initialize_data(args: &LaunchTokenArgs, fund_raising_target: u64) -> (r: Vec<u8>)
    requires
        args.wf(),
    ensures
        r@ == spec_initialize_data(args.name@, args.symbol@, args.uri@, fund_raising_target),
{
    let name = initialize_v2_name_bytes();
    let mut out = instruction_discriminator(&name);
    push_length_prefixed(&mut out, &args.name);
    push_length_prefixed(&mut out, &args.symbol);
    push_length_prefixed(&mut out, &args.uri);
    out.push(MINT_DECIMALS);
    out.push(0u8);
    push_u64_le(&mut out, CURVE_SUPPLY);
    push_u64_le(&mut out, CURVE_TOTAL_BASE_SELL);
    push_u64_le(&mut out, fund_raising_target);
    out.push(CURVE_MIGRATE_TYPE);
    push_u64_le(&mut out, 0);
    push_u64_le(&mut out, 0);
    push_u64_le(&mut out, 0);
    out.push(0u8);
    proof {
        assert(out@ =~= spec_initialize_data(
            args.name@,
            args.symbol@,
            args.uri@,
            fund_raising_target,
        ));
    }
    out
}

/// Builds the payload of a forwarded trade call for the given amounts.
pub fn encode_buy_data(amount_in: u64, minimum_amount_out: u64, share_fee_rate: u64) -> (r: Vec<u8>)
    ensures
        r@ == spec_buy_data(amount_in, minimum_amount_out, share_fee_rate),
{
    let name = buy_exact_in_name_bytes();
    let mut out = instruction_discriminator(&name);
    push_u64_le(&mut out, amount_in);
    push_u64_le(&mut out, minimum_amount_out);
    push_u64_le(&mut out, share_fee_rate);
    proof {
        assert(out@ =~= spec_buy_data(amount_in, minimum_amount_out, share_fee_rate));
    }
    out
}

} // verus!
