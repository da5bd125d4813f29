//! Structured event vocabulary for off-chain indexing, and the Base64
//! encoding used to put event payloads into text logs.

use vstd::prelude::*;

verus! {

/// Eight-byte tags that open each event record, so an indexer can tell
/// the kind of an event without decoding it (ASCII `evt_....`).
pub const ORDER_EVENT_DISCRIMINATOR: [u8; 8] = [0x65, 0x76, 0x74, 0x5f, 0x6f, 0x72, 0x64, 0x72];

pub const TRADE_EVENT_DISCRIMINATOR: [u8; 8] = [0x65, 0x76, 0x74, 0x5f, 0x74, 0x72, 0x61, 0x64];

pub const POSITION_EVENT_DISCRIMINATOR: [u8; 8] = [0x65, 0x76, 0x74, 0x5f, 0x70, 0x6f, 0x73, 0x6e];

pub const LIQUIDATION_EVENT_DISCRIMINATOR: [u8; 8] = [0x65, 0x76, 0x74, 0x5f, 0x6c, 0x69, 0x71, 0x64];

pub const ADL_EVENT_DISCRIMINATOR: [u8; 8] = [0x65, 0x76, 0x74, 0x5f, 0x61, 0x64, 0x6c, 0x5f];

pub const FUNDING_EVENT_DISCRIMINATOR: [u8; 8] = [0x65, 0x76, 0x74, 0x5f, 0x66, 0x75, 0x6e, 0x64];

pub const DEPOSIT_WITHDRAW_EVENT_DISCRIMINATOR: [u8; 8] = [0x65, 0x76, 0x74, 0x5f, 0x64, 0x65, 0x70, 0x77];

pub const FEE_EVENT_DISCRIMINATOR: [u8; 8] = [0x65, 0x76, 0x74, 0x5f, 0x66, 0x65, 0x65, 0x5f];

pub const INSURANCE_FUND_EVENT_DISCRIMINATOR: [u8; 8] = [0x65, 0x76, 0x74, 0x5f, 0x69, 0x6e, 0x73, 0x66];

pub const BATCH_EVENT_DISCRIMINATOR: [u8; 8] = [0x65, 0x76, 0x74, 0x5f, 0x62, 0x74, 0x63, 0x68];

/// Order lifecycle status.
#[derive(Clone, Copy, Debug, PartialEq, Eq, Structural)]
pub enum OrderStatus {
    Placed,
    Accepted,
    PartialFill,
    Filled,
    Cancelled,
    Expired,
    Rejected,
    Amended,
    Triggered,
    SLTriggered,
    TPTriggered,
}

/// Reason for an order status change.
#[derive(Clone, Copy, Debug, PartialEq, Eq, Structural)]
pub enum StatusReason {
    NoReason,
    InsufficientMargin,
    InsufficientBalance,
    SelfTrade,
    PostOnlyWouldCross,
    ReduceOnlyNoPosition,
    MarketPaused,
    PriceOutOfRange,
    UserCancelled,
    IOCNotFilled,
    FOKNotFilled,
    GTDExpired,
    Liquidation,
    ADL,
}

/// Kind of fill.
#[derive(Clone, Copy, Debug, PartialEq, Eq, Structural)]
pub enum TradeType {
    Normal,
    Liquidation,
    ADL,
    Funding,
}

/// What happened to a position.
#[derive(Clone, Copy, Debug, PartialEq, Eq, Structural)]
pub enum PositionEventType {
    Opened,
    Increased,
    Decreased,
    Closed,
    Flipped,
    Liquidated,
    ADLed,
}

/// Why auto-deleveraging was triggered.
#[derive(Clone, Copy, Debug, PartialEq, Eq, Structural)]
pub enum ADLTriggerReason {
    Bankruptcy,
    Preemptive,
}

/// Kind of collateral movement.
#[derive(Clone, Copy, Debug, PartialEq, Eq, Structural)]
pub enum DepositWithdrawType {
    Deposit,
    Withdraw,
    SpotDeposit,
    SpotWithdraw,
    InternalTransfer,
    RelayerDeposit,
    BridgeDeposit,
}

/// Kind of fee.
#[derive(Clone, Copy, Debug, PartialEq, Eq, Structural)]
pub enum FeeType {
    MakerFee,
    TakerFee,
    LiquidationPenalty,
    InsuranceContribution,
    FundingFee,
}

/// Kind of insurance-pool movement.
#[derive(Clone, Copy, Debug, PartialEq, Eq, Structural)]
pub enum InsuranceFundEventType {
    LiquidationIncome,
    ADLProfit,
    ShortfallCover,
    FeeIncome,
}

/// Stage of a settlement batch.
#[derive(Clone, Copy, Debug, PartialEq, Eq, Structural)]
pub enum BatchStatus {
    Submitted,
    Confirmed,
    Executed,
    Failed,
}

/// The Base64 symbol for a six-bit value.
pub open spec fn b64_symbol_spec(v: u32) -> u8 {
    if v < 26 {
        (65 + v) as u8
    } else if v < 52 {
        (97 + (v - 26)) as u8
    } else if v < 62 {
        (48 + (v - 52)) as u8
    } else if v == 62 {
        43u8
    } else {
        47u8
    }
}

/// The four symbols that encode a group of one to three bytes, padded
/// with `=`.
pub open spec fn b64_group(g: Seq<u8>) -> Seq<u8> {
    let b0 = g[0] as u32;
    let b1 = if g.len() > 1 { g[1] as u32 } else { 0u32 };
    let b2 = if g.len() > 2 { g[2] as u32 } else { 0u32 };
    let triple = (b0 << 16u32) | (b1 << 8u32) | b2;
    seq![
        b64_symbol_spec((triple >> 18u32) & 0x3f),
        b64_symbol_spec((triple >> 12u32) & 0x3f),
        if g.len() > 1 { b64_symbol_spec((triple >> 6u32) & 0x3f) } else { 61u8 },
        if g.len() > 2 { b64_symbol_spec(triple & 0x3f) } else { 61u8 },
    ]
}

/// The encoding of the first `k` three-byte groups of `d`.
pub open spec fn b64_groups(d: Seq<u8>, k: nat) -> Seq<u8>
    decreases k,
{
    if k == 0 {
        Seq::empty()
    } else {
        let start: int = 3 * (k - 1);
        let end: int = if 3 * k < d.len() { (3 * k) as int } else { d.len() as int };
        b64_groups(d, (k - 1) as nat) + b64_group(d.subrange(start, end))
    }
}

/// Standard padded Base64 of `d`.
pub open spec fn base64_spec(d: Seq<u8>) -> Seq<u8> {
    b64_groups(d, ((d.len() + 2) / 3) as nat)
}

fn b64_symbol(v: u32) -> (r: u8)
    requires
        v < 64,
    ensures
        r == b64_symbol_spec(v),
{
    if v < 26 {
        (65 + v) as u8
    } else if v < 52 {
        (97 + (v - 26)) as u8
    } else if v < 62 {
        (48 + (v - 52)) as u8
    } else if v == 62 {
        43
    } else {
        47
    }
}

/// Encodes bytes as standard padded Base64 (alphabet `A-Z a-z 0-9 + /`).
pub fn base64_encode(data: &[u8]) -> (r: Vec<u8>)
    ensures
        r@ == base64_spec(data@),
{
    let n = data.len();
    let mut out: Vec<u8> = Vec::new();
    let mut i: usize = 0;
    let ghost mut k: nat = 0;
    while i < n
        invariant
            n == data@.len(),
            i <= n,
            i < n ==> i == 3 * k && k < (n + 2) / 3,
            i == n ==> k == (n + 2) / 3,
            out@ == b64_groups(data@, k),
        decreases n - i,
    {
        let b0 = data[i] as u32;
        let b1: u32 = if i + 1 < n { data[i + 1] as u32 } else { 0 };
        let b2: u32 = if i + 2 < n { data[i + 2] as u32 } else { 0 };
        let triple = (b0 << 16u32) | (b1 << 8u32) | b2;
        let end: usize = if n - i > 3 { i + 3 } else { n };
        let ghost g = data@.subrange(i as int, end as int);
        assert(g.len() > 1 <==> i + 1 < n);
        assert(g.len() > 2 <==> i + 2 < n);
        assert(((triple >> 18u32) & 0x3f) < 64) by (bit_vector);
        assert(((triple >> 12u32) & 0x3f) < 64) by (bit_vector);
        assert(((triple >> 6u32) & 0x3f) < 64) by (bit_vector);
        assert((triple & 0x3f) < 64) by (bit_vector);
        out.push(b64_symbol((triple >> 18u32) & 0x3f));
        out.push(b64_symbol((triple >> 12u32) & 0x3f));
        if i + 1 < n {
            out.push(b64_symbol((triple >> 6u32) & 0x3f));
        } else {
            out.push(61);
        }
        if i + 2 < n {
            out.push(b64_symbol(triple & 0x3f));
        } else {
            out.push(61);
        }
        proof {
            assert(out@ =~= b64_groups(data@, k) + b64_group(g));
            k = k + 1;
            assert(out@ =~= b64_groups(data@, k));
        }
        i = end;
    }
    out
}

} // verus!
