//! Byte layouts the ledger owns: the trade payload that batch commitments
//! are computed over, and the reserve's records it reads.

use vstd::prelude::*;
use crate::error::LedgerError;
use crate::hashing::{le_bytes_u64, push_le_u64};
use crate::settlement::{CollaboratorCall, TradeData};
use crate::state::{Address, Side};

verus! {

/// The four little-endian bytes of `x`.
pub open spec fn le_bytes_u32(x: u32) -> Seq<u8> {
    seq![
        (x & 0xff) as u8, ((x >> 8u32) & 0xff) as u8, ((x >> 16u32) & 0xff) as u8,
        ((x >> 24u32) & 0xff) as u8,
    ]
}

/// Wire tag of a side.
pub open spec fn side_tag(side: Side) -> u8 {
    match side {
        Side::Long => 0u8,
        Side::Short => 1u8,
    }
}

/// One trade as 52 bytes: user, market, kind, side, size (LE), price (LE),
/// leverage.
pub open spec fn trade_bytes(t: TradeData) -> Seq<u8> {
    t.user.bytes@ + seq![t.market_index, t.trade_type, side_tag(t.side)] + le_bytes_u64(t.size_e6)
        + le_bytes_u64(t.price_e6) + seq![t.leverage]
}

/// The trades laid end to end.
pub open spec fn trades_body(ts: Seq<TradeData>) -> Seq<u8>
    decreases ts.len(),
{
    if ts.len() == 0 {
        Seq::empty()
    } else {
        trades_body(ts.drop_last()) + trade_bytes(ts.last())
    }
}

/// A trade list as committed to: its length as four little-endian bytes,
/// then each trade.
pub open spec fn trades_payload(ts: Seq<TradeData>) -> Seq<u8> {
    le_bytes_u32(ts.len() as u32) + trades_body(ts)
}

/// Appends one trade's bytes to `out`.
fn push_trade(out: &mut Vec<u8>, t: &TradeData)
    ensures
        final(out)@ == old(out)@ + trade_bytes(*t),
{
    let ghost start = out@;
    let mut i: usize = 0;
    while i < 32
        invariant
            i <= 32,
            t.user.bytes@.len() == 32,
            out@ == start + t.user.bytes@.subrange(0, i as int),
        decreases 32 - i,
    {
        out.push(t.user.bytes[i]);
        i = i + 1;
        assert(out@ =~= start + t.user.bytes@.subrange(0, i as int));
    }
    assert(t.user.bytes@.subrange(0, 32) =~= t.user.bytes@);
    out.push(t.market_index);
    out.push(t.trade_type);
    let tag: u8 = match t.side {
        Side::Long => 0,
        Side::Short => 1,
    };
    out.push(tag);
    push_le_u64(out, t.size_e6);
    push_le_u64(out, t.price_e6);
    out.push(t.leverage);
    assert(out@ =~= start + trade_bytes(*t));
}

/// Encodes a trade list in the layout its batch commitment covers.
pub fn encode_trades(trades: &Vec<TradeData>) -> (r: Vec<u8>)
    requires
        trades@.len() <= u32::MAX,
    ensures
        r@ == trades_payload(trades@),
{
    let n = trades.len() as u32;
    let mut out: Vec<u8> = Vec::new();
    out.push((n & 0xff) as u8);
    out.push(((n >> 8u32) & 0xff) as u8);
    out.push(((n >> 16u32) & 0xff) as u8);
    out.push(((n >> 24u32) & 0xff) as u8);
    assert(out@ =~= le_bytes_u32(n));
    let mut i: usize = 0;
    while i < trades.len()
        invariant
            i <= trades@.len(),
            n == trades@.len() as u32,
            out@ == le_bytes_u32(n) + trades_body(trades@.subrange(0, i as int)),
        decreases trades@.len() - i,
    {
        let ghost before = out@;
        push_trade(&mut out, &trades[i]);
        proof {
            let pre = trades@.subrange(0, i as int);
            let next = trades@.subrange(0, i + 1);
            assert(next.drop_last() =~= pre);
            assert(next.last() == trades@[i as int]);
            assert(out@ =~= le_bytes_u32(n) + trades_body(next));
        }
        i = i + 1;
    }
    assert(trades@.subrange(0, trades@.len() as int) =~= trades@);
    out
}

/// The little-endian `u64` in `s[off..off + 8]`.
pub open spec fn u64_at(s: Seq<u8>, off: int) -> u64 {
    (s[off] as u64) | ((s[off + 1] as u64) << 8u64) | ((s[off + 2] as u64) << 16u64)
        | ((s[off + 3] as u64) << 24u64) | ((s[off + 4] as u64) << 32u64) | ((s[off + 5] as u64) << 40u64)
        | ((s[off + 6] as u64) << 48u64) | ((s[off + 7] as u64) << 56u64)
}

/// Reads the little-endian `u64` at `off`.
fn read_u64_le(data: &[u8], off: usize) -> (r: u64)
    requires
        off + 8 <= data@.len(),
    ensures
        r == u64_at(data@, off as int),
{
    (data[off] as u64) | ((data[off + 1] as u64) << 8u64) | ((data[off + 2] as u64) << 16u64)
        | ((data[off + 3] as u64) << 24u64) | ((data[off + 4] as u64) << 32u64)
        | ((data[off + 5] as u64) << 40u64) | ((data[off + 6] as u64) << 48u64)
        | ((data[off + 7] as u64) << 56u64)
}

/// Reads the 32 bytes at `off` as an identity.
fn read_address(data: &[u8], off: usize) -> (r: Address)
    requires
        off + 32 <= data@.len(),
    ensures
        r.bytes@ == data@.subrange(off as int, off + 32),
{
    let n = data.len();
    let mut bytes = [0u8; 32];
    let mut i: usize = 0;
    while i < 32
        invariant
            i <= 32,
            n == data@.len(),
            off + 32 <= data@.len(),
            bytes@.len() == 32,
            forall|j: int| 0 <= j < i ==> bytes@[j] == data@[off + j],
        decreases 32 - i,
    {
        bytes[i] = data[off + i];
        i = i + 1;
    }
    assert(bytes@ =~= data@.subrange(off as int, off + 32));
    Address { bytes }
}

/// Smallest reserve configuration record this ledger reads.
pub const INSURANCE_FUND_CONFIG_MIN_LEN: usize = 154;

/// Offset of the balance in a token-account record.
pub const TOKEN_ACCOUNT_AMOUNT_OFFSET: usize = 64;

/// The reserve's insurance-pool configuration, as this ledger reads it.
#[derive(Clone, Copy, Debug, PartialEq, Eq)]
pub struct InsuranceFundConfigData {
    pub discriminator: u64,
    pub fund: Address,
    pub bump: u8,
    pub total_liquidation_income_e6: i64,
    pub total_adl_profit_e6: i64,
    pub total_shortfall_payout_e6: i64,
    pub adl_trigger_threshold_e6: i64,
    pub adl_trigger_count: u64,
    pub balance_1h_ago_e6: i64,
    pub last_snapshot_ts: i64,
    pub withdrawal_delay_secs: i64,
    pub is_adl_in_progress: bool,
}

/// Parses the reserve's configuration record: a tag, the fund identity, a
/// bump byte, then little-endian counters and a flag. Records shorter than
/// `INSURANCE_FUND_CONFIG_MIN_LEN` are refused with `InvalidAccount`.
pub fn read_insurance_fund_config(data: &[u8]) -> (r: Result<InsuranceFundConfigData, LedgerError>)
    ensures
        data@.len() < INSURANCE_FUND_CONFIG_MIN_LEN ==> r == Err::<InsuranceFundConfigData, LedgerError>(LedgerError::InvalidAccount),
        data@.len() >= INSURANCE_FUND_CONFIG_MIN_LEN ==> {
            &&& r is Ok
            &&& r->Ok_0.discriminator == u64_at(data@, 0)
            &&& r->Ok_0.bump == data@[40]
            &&& r->Ok_0.total_liquidation_income_e6 == u64_at(data@, 41) as i64
            &&& r->Ok_0.total_adl_profit_e6 == u64_at(data@, 49) as i64
            &&& r->Ok_0.total_shortfall_payout_e6 == u64_at(data@, 57) as i64
            &&& r->Ok_0.adl_trigger_threshold_e6 == u64_at(data@, 65) as i64
            &&& r->Ok_0.adl_trigger_count == u64_at(data@, 73)
            &&& r->Ok_0.balance_1h_ago_e6 == u64_at(data@, 81) as i64
            &&& r->Ok_0.last_snapshot_ts == u64_at(data@, 89) as i64
            &&& r->Ok_0.withdrawal_delay_secs == u64_at(data@, 97) as i64
            &&& r->Ok_0.is_adl_in_progress == (data@[105] != 0)
        },
        r is Ok ==> r->Ok_0.fund.bytes@ == data@.subrange(8, 40),
{
    if data.len() < INSURANCE_FUND_CONFIG_MIN_LEN {
        return Err(LedgerError::InvalidAccount);
    }
    Ok(InsuranceFundConfigData {
        discriminator: read_u64_le(data, 0),
        fund: read_address(data, 8),
        bump: data[40],
        total_liquidation_income_e6: read_u64_le(data, 41) as i64,
        total_adl_profit_e6: read_u64_le(data, 49) as i64,
        total_shortfall_payout_e6: read_u64_le(data, 57) as i64,
        adl_trigger_threshold_e6: read_u64_le(data, 65) as i64,
        adl_trigger_count: read_u64_le(data, 73),
        balance_1h_ago_e6: read_u64_le(data, 81) as i64,
        last_snapshot_ts: read_u64_le(data, 89) as i64,
        withdrawal_delay_secs: read_u64_le(data, 97) as i64,
        is_adl_in_progress: data[105] != 0,
    })
}

/// Reads the balance of the insurance pool's token account: the
/// little-endian `u64` at offset 64. Records shorter than 72 bytes are
/// refused with `InvalidAccount`.
pub fn read_insurance_fund_balance_from_vault(data: &[u8]) -> (r: Result<u64, LedgerError>)
    ensures
        data@.len() < 72 ==> r == Err::<u64, LedgerError>(LedgerError::InvalidAccount),
        data@.len() >= 72 ==> r == Ok::<u64, LedgerError>(u64_at(data@, 64)),
{
    if data.len() < 72 {
        return Err(LedgerError::InvalidAccount);
    }
    Ok(read_u64_le(data, TOKEN_ACCOUNT_AMOUNT_OFFSET))
}

/// Operation id and little-endian arguments of a collaborator call. Custody
/// operations are numbered 4 to 7, reserve operations 16 to 22.
pub open spec fn call_bytes(c: CollaboratorCall) -> Seq<u8> {
    match c {
        CollaboratorCall::LockMargin { amount } => seq![4u8] + le_bytes_u64(amount),
        CollaboratorCall::ReleaseMargin { amount } => seq![5u8] + le_bytes_u64(amount),
        CollaboratorCall::SettleClose { margin_to_release, realized_pnl, fee } => seq![6u8] + le_bytes_u64(
            margin_to_release,
        ) + le_bytes_u64(realized_pnl as u64) + le_bytes_u64(fee),
        CollaboratorCall::LiquidatePosition { margin, user_remainder, liquidation_penalty } => seq![7u8]
            + le_bytes_u64(margin) + le_bytes_u64(user_remainder) + le_bytes_u64(liquidation_penalty),
        CollaboratorCall::AddLiquidationIncome { amount_e6 } => seq![16u8] + le_bytes_u64(amount_e6 as u64),
        CollaboratorCall::AddAdlProfit { amount_e6 } => seq![17u8] + le_bytes_u64(amount_e6 as u64),
        CollaboratorCall::CoverShortfall { shortfall_e6 } => seq![18u8] + le_bytes_u64(shortfall_e6 as u64),
        CollaboratorCall::SetAdlInProgress { in_progress } => seq![20u8, if in_progress { 1u8 } else { 0u8 }],
        CollaboratorCall::AddTradingFee { fee_e6 } => seq![22u8] + le_bytes_u64(fee_e6 as u64),
    }
}

/// Is the call addressed to the custody service (as opposed to the reserve)?
pub open spec fn is_custody_call(c: CollaboratorCall) -> bool {
    match c {
        CollaboratorCall::LockMargin { .. } => true,
        CollaboratorCall::ReleaseMargin { .. } => true,
        CollaboratorCall::SettleClose { .. } => true,
        CollaboratorCall::LiquidatePosition { .. } => true,
        _ => false,
    }
}

/// Serializes a collaborator call: its operation id, then its arguments.
pub fn encode_call(call: &CollaboratorCall) -> (r: Vec<u8>)
    ensures
        r@ == call_bytes(*call),
{
    let mut out: Vec<u8> = Vec::new();
    match call {
        CollaboratorCall::LockMargin { amount } => {
            out.push(4);
            push_le_u64(&mut out, *amount);
        },
        CollaboratorCall::ReleaseMargin { amount } => {
            out.push(5);
            push_le_u64(&mut out, *amount);
        },
        CollaboratorCall::SettleClose { margin_to_release, realized_pnl, fee } => {
            out.push(6);
            push_le_u64(&mut out, *margin_to_release);
            push_le_u64(&mut out, *realized_pnl as u64);
            push_le_u64(&mut out, *fee);
        },
        CollaboratorCall::LiquidatePosition { margin, user_remainder, liquidation_penalty } => {
            out.push(7);
            push_le_u64(&mut out, *margin);
            push_le_u64(&mut out, *user_remainder);
            push_le_u64(&mut out, *liquidation_penalty);
        },
        CollaboratorCall::AddLiquidationIncome { amount_e6 } => {
            out.push(16);
            push_le_u64(&mut out, *amount_e6 as u64);
        },
        CollaboratorCall::AddAdlProfit { amount_e6 } => {
            out.push(17);
            push_le_u64(&mut out, *amount_e6 as u64);
        },
        CollaboratorCall::CoverShortfall { shortfall_e6 } => {
            out.push(18);
            push_le_u64(&mut out, *shortfall_e6 as u64);
        },
        CollaboratorCall::SetAdlInProgress { in_progress } => {
            out.push(20);
            out.push(if *in_progress { 1 } else { 0 });
        },
        CollaboratorCall::AddTradingFee { fee_e6 } => {
            out.push(22);
            push_le_u64(&mut out, *fee_e6 as u64);
        },
    }
    assert(out@ =~= call_bytes(*call));
    out
}

/// Whether a call goes to the custody service rather than the reserve.
pub fn targets_custody(call: &CollaboratorCall) -> (r: bool)
    ensures
        r == is_custody_call(*call),
{
    match call {
        CollaboratorCall::LockMargin { .. } => true,
        CollaboratorCall::ReleaseMargin { .. } => true,
        CollaboratorCall::SettleClose { .. } => true,
        CollaboratorCall::LiquidatePosition { .. } => true,
        _ => false,
    }
}

} // verus!
