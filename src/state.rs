//! Ledger records: configuration singletons, relayer quorum, trade batches,
//! positions and per-user statistics.

use vstd::prelude::*;
use crate::error::LedgerError;
use crate::hashing::{compute_hash, constant_time_compare, sha256_of};
use crate::math::{wide_mul, trunc_div, checked_sub, mul_e6, i64_result, u64_result, mul_e6_spec, fits_i64};

verus! {

/// A 32-byte identity: a user, a relayer, a program or a record address.
#[derive(Clone, Copy, Debug, PartialEq, Eq)]
pub struct Address {
    pub bytes: [u8; 32],
}

impl Address {
    pub fn new(bytes: [u8; 32]) -> (r: Address)
        ensures
            r.bytes == bytes,
    {
        Address { bytes }
    }

    /// Equality of two identities.
    pub fn same(&self, other: &Address) -> (r: bool)
        ensures
            r == (*self == *other),
    {
        let eq = constant_time_compare(&self.bytes, &other.bytes);
        if eq {
            assert(self.bytes =~= other.bytes);
        }
        eq
    }
}

/// Direction of a position or an order.
#[derive(Clone, Copy, Debug, PartialEq, Eq, Structural)]
pub enum Side {
    Long,
    Short,
}

impl Side {
    /// The other direction.
    pub fn opposite(&self) -> (r: Side)
        ensures
            r != *self,
    {
        match self {
            Side::Long => Side::Short,
            Side::Short => Side::Long,
        }
    }
}


/// Most relayers a relayer set may hold.
pub const MAX_RELAYERS: usize = 5;

/// Most signatures a trade batch record has room for.
pub const MAX_SIGNATURES: usize = 5;

/// Highest leverage a position may be opened with.
pub const MAX_LEVERAGE: u8 = 100;

/// Maintenance margin rate, 2.5% in e6 units.
pub const DEFAULT_MAINTENANCE_MARGIN_RATE: i64 = 25_000;

/// Liquidation penalty rate, 1% in e6 units.
pub const LIQUIDATION_PENALTY_RATE: i64 = 10_000;

/// Trading fee rate charged on opens and closes, 0.1% in e6 units.
pub const TRADING_FEE_RATE_E6: u64 = 1_000;

/// Lifetime of a trade batch, in seconds after its submission.
pub const TRADE_BATCH_EXPIRY_SECONDS: i64 = 60;

/// Unrealized PnL, in e6 units, of `size` held from `entry` when the mark is `mark`.
pub open spec fn pnl_spec(side: Side, size: int, entry: int, mark: int) -> int {
    match side {
        Side::Long => mul_e6_spec(mark - entry, size),
        Side::Short => mul_e6_spec(entry - mark, size),
    }
}

/// Outcome of the PnL computation: the PnL when every operand and the
/// result fit the signed 64-bit range, `Overflow` otherwise.
pub open spec fn pnl_result(side: Side, size: u64, entry: u64, mark: u64) -> Result<i64, LedgerError> {
    if size > i64::MAX || entry > i64::MAX || mark > i64::MAX {
        Err(LedgerError::Overflow)
    } else {
        i64_result(pnl_spec(side, size as int, entry as int, mark as int))
    }
}

/// The e6-scaled price factor at which a position is liquidated:
/// `1 - 1/leverage + mmr` for a long, `1 + 1/leverage - mmr` for a short,
/// with `1/leverage` taken as `1e6 / leverage` e6 units.
pub open spec fn liquidation_factor(side: Side, leverage: int) -> int {
    match side {
        Side::Long => 1_000_000 - 1_000_000int / leverage + 25_000,
        Side::Short => 1_000_000 + 1_000_000int / leverage - 25_000,
    }
}

/// Liquidation price for an entry price and leverage, clamped at zero.
pub open spec fn liquidation_price_result(side: Side, entry: u64, leverage: u8) -> Result<u64, LedgerError> {
    if leverage == 0 || entry > i64::MAX {
        Err(LedgerError::Overflow)
    } else {
        let p = mul_e6_spec(entry as int, liquidation_factor(side, leverage as int));
        if fits_i64(p) {
            Ok(if p < 0 { 0u64 } else { p as u64 })
        } else {
            Err(LedgerError::Overflow)
        }
    }
}

/// Is a position on `side` with liquidation price `liq` liquidatable at `mark`?
pub open spec fn liquidatable(side: Side, liq: u64, mark: u64) -> bool {
    match side {
        Side::Long => mark <= liq,
        Side::Short => mark >= liq,
    }
}

/// Flipping the side of a position negates its PnL for the same size,
/// entry and mark: truncation toward zero is symmetric.
pub proof fn lemma_pnl_side_symmetric(size: u64, entry: u64, mark: u64)
    ensures
        pnl_spec(Side::Short, size as int, entry as int, mark as int)
            == -pnl_spec(Side::Long, size as int, entry as int, mark as int),
        pnl_result(Side::Long, size, entry, mark) is Ok && pnl_result(Side::Long, size, entry, mark)->Ok_0 != i64::MIN
            ==> pnl_result(Side::Short, size, entry, mark) == Ok::<i64, LedgerError>(
                -pnl_result(Side::Long, size, entry, mark)->Ok_0 as i64,
            ),
{
    assert((entry as int - mark as int) * (size as int) == -((mark as int - entry as int) * (size as int)))
        by (nonlinear_arith);
}

/// The liquidation trigger is a threshold in the mark price: a long that is
/// liquidatable stays so at any lower mark, a short at any higher mark.
pub proof fn lemma_liquidation_threshold(side: Side, liq: u64, mark: u64, other: u64)
    ensures
        side == Side::Long && liquidatable(side, liq, mark) && other <= mark ==> liquidatable(side, liq, other),
        side == Side::Short && liquidatable(side, liq, mark) && other >= mark ==> liquidatable(side, liq, other),
        side == Side::Long ==> (liquidatable(side, liq, mark) <==> mark <= liq),
        side == Side::Short ==> (liquidatable(side, liq, mark) <==> mark >= liq),
{
}

/// A user's position in one market.
///
/// Invariant of a settled record: `size_e6 == 0` exactly when margin, entry
/// price and liquidation price are all zero (see `Position::wf`).
#[derive(Clone, Copy, Debug, PartialEq, Eq)]
pub struct Position {
    pub user: Address,
    pub market_index: u8,
    pub side: Side,
    pub size_e6: u64,
    pub entry_price_e6: u64,
    pub margin_e6: u64,
    pub leverage: u8,
    pub liquidation_price_e6: u64,
    pub unrealized_pnl_e6: i64,
    pub last_funding_ts: i64,
    pub cumulative_funding_e6: i64,
    pub open_order_count: u8,
    pub opened_at: i64,
    pub last_update_ts: i64,
    pub bump: u8,
}

/// The position after adding `add_size` at `add_price`: the entry price
/// becomes the size-weighted average and the liquidation price is
/// recomputed.
pub open spec fn increased_position(p: Position, add_size: u64, add_price: u64) -> Result<Position, LedgerError> {
    let total_notional = p.size_e6 * p.entry_price_e6 + add_size * add_price;
    let total_size = p.size_e6 + add_size;
    if total_notional > u128::MAX {
        Err(LedgerError::Overflow)
    } else if total_size == 0 {
        Err(LedgerError::InvalidPositionSize)
    } else if total_size > u64::MAX {
        Err(LedgerError::Overflow)
    } else {
        let entry = (total_notional / total_size) as u64;
        match liquidation_price_result(p.side, entry, p.leverage) {
            Ok(liq) => Ok(Position {
                entry_price_e6: entry,
                size_e6: total_size as u64,
                liquidation_price_e6: liq,
                ..p
            }),
            Err(e) => Err(e),
        }
    }
}

/// A weighted average of two prices lies within the price range.
proof fn lemma_weighted_average_bound(s1: nat, e1: nat, s2: nat, e2: nat, bound: nat)
    requires
        e1 <= bound,
        e2 <= bound,
        s1 + s2 > 0,
    ensures
        (s1 * e1 + s2 * e2) / (s1 + s2) <= bound,
{
    assert(s1 * e1 + s2 * e2 <= (s1 + s2) * bound) by (nonlinear_arith)
        requires
            e1 <= bound,
            e2 <= bound,
    ;
    assert((s1 * e1 + s2 * e2) / (s1 + s2) <= ((s1 + s2) * bound) / (s1 + s2)) by (nonlinear_arith)
        requires
            s1 * e1 + s2 * e2 <= (s1 + s2) * bound,
            s1 + s2 > 0,
    ;
    assert(((s1 + s2) * bound) / (s1 + s2) == bound) by (nonlinear_arith)
        requires
            s1 + s2 > 0,
    ;
}

impl Position {
    /// Well-formedness: an empty position carries no margin, entry price or
    /// liquidation price.
    pub open spec fn wf(&self) -> bool {
        (self.size_e6 == 0) ==> (self.margin_e6 == 0 && self.entry_price_e6 == 0
            && self.liquidation_price_e6 == 0)
    }

    /// Notional value `size * entry / 1e6`.
    pub fn notional_value_e6(&self) -> (r: Result<u64, LedgerError>)
        ensures
            r == u64_result((self.size_e6 * self.entry_price_e6) / 1_000_000),
    {
        assert((self.size_e6 as int) * (self.entry_price_e6 as int) <= 0xffff_ffff_ffff_ffff_ffff_ffff_ffff_ffff)
            by (nonlinear_arith)
            requires
                self.size_e6 <= 0xffff_ffff_ffff_ffff,
                self.entry_price_e6 <= 0xffff_ffff_ffff_ffff,
        ;
        let notional = (self.size_e6 as u128) * (self.entry_price_e6 as u128) / 1_000_000u128;
        if notional > u64::MAX as u128 {
            Err(LedgerError::Overflow)
        } else {
            Ok(notional as u64)
        }
    }

    /// Unrealized PnL at `mark_price_e6`: `(mark - entry) * size / 1e6` for a
    /// long, `(entry - mark) * size / 1e6` for a short.
    pub fn calculate_unrealized_pnl(&self, mark_price_e6: u64) -> (r: Result<i64, LedgerError>)
        ensures
            r == pnl_result(self.side, self.size_e6, self.entry_price_e6, mark_price_e6),
    {
        if self.size_e6 > i64::MAX as u64 || self.entry_price_e6 > i64::MAX as u64
            || mark_price_e6 > i64::MAX as u64 {
            return Err(LedgerError::Overflow);
        }
        let size = self.size_e6 as i64;
        let entry = self.entry_price_e6 as i64;
        let mark = mark_price_e6 as i64;
        let price_diff = match self.side {
            Side::Long => checked_sub(mark, entry)?,
            Side::Short => checked_sub(entry, mark)?,
        };
        mul_e6(price_diff, size)
    }

    /// Liquidation price from the entry price, leverage and the fixed
    /// maintenance margin rate, clamped at zero.
    pub fn calculate_liquidation_price(&self) -> (r: Result<u64, LedgerError>)
        ensures
            r == liquidation_price_result(self.side, self.entry_price_e6, self.leverage),
    {
        liquidation_price_for(self.side, self.entry_price_e6, self.leverage)
    }

    /// Liquidation trigger: a long at or below its liquidation price, a short
    /// at or above it.
    pub fn should_liquidate(&self, mark_price_e6: u64) -> (r: bool)
        ensures
            r == liquidatable(self.side, self.liquidation_price_e6, mark_price_e6),
    {
        match self.side {
            Side::Long => mark_price_e6 <= self.liquidation_price_e6,
            Side::Short => mark_price_e6 >= self.liquidation_price_e6,
        }
    }

    /// Adds `add_size_e6` at `add_price_e6`: the entry price becomes the
    /// size-weighted average, the size grows, and the liquidation price is
    /// recomputed. On failure the position is left unchanged.
    pub fn update_entry_price(&mut self, add_size_e6: u64, add_price_e6: u64) -> (r: Result<(), LedgerError>)
        ensures
            match increased_position(*old(self), add_size_e6, add_price_e6) {
                Ok(p) => r == Ok::<(), LedgerError>(()) && *final(self) == p,
                Err(e) => r == Err::<(), LedgerError>(e) && *final(self) == *old(self),
            },
    {
        let old_notional = wide_mul(self.size_e6, self.entry_price_e6);
        let add_notional = wide_mul(add_size_e6, add_price_e6);
        let total_notional = match old_notional.checked_add(add_notional) {
            Some(v) => v,
            None => return Err(LedgerError::Overflow),
        };
        let total_size = (self.size_e6 as u128) + (add_size_e6 as u128);
        if total_size == 0 {
            return Err(LedgerError::InvalidPositionSize);
        }
        if total_size > u64::MAX as u128 {
            return Err(LedgerError::Overflow);
        }
        proof {
            lemma_weighted_average_bound(
                self.size_e6 as nat,
                self.entry_price_e6 as nat,
                add_size_e6 as nat,
                add_price_e6 as nat,
                u64::MAX as nat,
            );
        }
        let new_entry = (total_notional / total_size) as u64;
        let liq = liquidation_price_for(self.side, new_entry, self.leverage)?;
        self.entry_price_e6 = new_entry;
        self.size_e6 = total_size as u64;
        self.liquidation_price_e6 = liq;
        Ok(())
    }

    /// Is the position empty?
    pub fn is_empty(&self) -> (r: bool)
        ensures
            r == (self.size_e6 == 0),
    {
        self.size_e6 == 0
    }
}

/// Liquidation price of a position on `side` entered at `entry` with
/// `leverage`.
pub fn liquidation_price_for(side: Side, entry: u64, leverage: u8) -> (r: Result<u64, LedgerError>)
    ensures
        r == liquidation_price_result(side, entry, leverage),
{
    if entry > i64::MAX as u64 {
        return Err(LedgerError::Overflow);
    }
    if leverage == 0 {
        return Err(LedgerError::Overflow);
    }
    let leverage_factor: i64 = 1_000_000i64 / (leverage as i64);
    assert(0 <= leverage_factor <= 1_000_000);
    let factor = match side {
        Side::Long => 1_000_000i64 - leverage_factor + DEFAULT_MAINTENANCE_MARGIN_RATE,
        Side::Short => 1_000_000i64 + leverage_factor - DEFAULT_MAINTENANCE_MARGIN_RATE,
    };
    let liq = mul_e6(entry as i64, factor)?;
    if liq < 0 {
        Ok(0)
    } else {
        Ok(liq as u64)
    }
}

/// Process-wide configuration and running totals.
#[derive(Clone, Copy, Debug, PartialEq, Eq)]
pub struct LedgerConfig {
    pub admin: Address,
    /// The custody service (per-user collateral).
    pub vault_program: Address,
    /// The reserve service (insurance pool).
    pub fund_program: Address,
    pub global_sequence: u64,
    pub total_positions_opened: u64,
    pub total_positions_closed: u64,
    pub total_volume_e6: u64,
    pub total_fees_collected_e6: u64,
    pub total_liquidations: u64,
    pub total_adl_count: u64,
    pub is_paused: bool,
    pub bump: u8,
    pub created_at: i64,
    pub last_update_ts: i64,
}

impl LedgerConfig {
    /// A fresh configuration: every counter zero, not paused.
    pub fn new(admin: Address, vault_program: Address, fund_program: Address, bump: u8, now: i64) -> (r: LedgerConfig)
        ensures
            r.admin == admin,
            r.vault_program == vault_program,
            r.fund_program == fund_program,
            r.global_sequence == 0,
            r.total_positions_opened == 0,
            r.total_positions_closed == 0,
            r.total_volume_e6 == 0,
            r.total_fees_collected_e6 == 0,
            r.total_liquidations == 0,
            r.total_adl_count == 0,
            !r.is_paused,
            r.bump == bump,
            r.created_at == now,
            r.last_update_ts == now,
    {
        LedgerConfig {
            admin,
            vault_program,
            fund_program,
            global_sequence: 0,
            total_positions_opened: 0,
            total_positions_closed: 0,
            total_volume_e6: 0,
            total_fees_collected_e6: 0,
            total_liquidations: 0,
            total_adl_count: 0,
            is_paused: false,
            bump,
            created_at: now,
            last_update_ts: now,
        }
    }

    /// Hands out the current sequence number and advances the counter,
    /// saturating at the top of the range.
    pub fn next_sequence(&mut self) -> (r: u64)
        ensures
            r == old(self).global_sequence,
            *final(self) == (LedgerConfig {
                global_sequence: if old(self).global_sequence == u64::MAX {
                    u64::MAX
                } else {
                    (old(self).global_sequence + 1) as u64
                },
                ..*old(self)
            }),
    {
        let seq = self.global_sequence;
        self.global_sequence = self.global_sequence.saturating_add(1);
        seq
    }
}

/// Does `relayers` hold each identity at most once?
pub open spec fn distinct_addresses(relayers: Seq<Address>) -> bool {
    forall|i: int, j: int| 0 <= i < j < relayers.len() ==> relayers[i] != relayers[j]
}

/// Is `count` signatures a quorum for a threshold of `required`?
pub open spec fn has_quorum(required: u8, count: u8) -> bool {
    count >= required
}

/// The authorized relayers and the signature threshold.
#[derive(Clone, Debug, PartialEq, Eq)]
pub struct RelayerConfig {
    pub admin: Address,
    pub authorized_relayers: Vec<Address>,
    pub required_signatures: u8,
    pub bump: u8,
    pub last_update_ts: i64,
}

impl RelayerConfig {
    /// Well-formedness: between one and `MAX_RELAYERS` distinct relayers and
    /// a threshold between one and their number.
    pub open spec fn wf(&self) -> bool {
        &&& 1 <= self.authorized_relayers@.len() <= MAX_RELAYERS
        &&& 1 <= self.required_signatures <= self.authorized_relayers@.len()
        &&& distinct_addresses(self.authorized_relayers@)
    }

    /// Is `relayer` one of the authorized relayers?
    pub fn is_authorized(&self, relayer: &Address) -> (r: bool)
        ensures
            r == self.authorized_relayers@.contains(*relayer),
    {
        contains_address(&self.authorized_relayers, relayer)
    }

    /// Does `count` signatures meet the threshold?
    pub fn has_enough_signatures(&self, count: u8) -> (r: bool)
        ensures
            r == has_quorum(self.required_signatures, count),
    {
        count >= self.required_signatures
    }

    /// Number of authorized relayers.
    pub fn relayer_count(&self) -> (r: usize)
        ensures
            r == self.authorized_relayers@.len(),
    {
        self.authorized_relayers.len()
    }
}

/// Is `who` in `list`?
pub fn contains_address(list: &Vec<Address>, who: &Address) -> (r: bool)
    ensures
        r == list@.contains(*who),
{
    let mut i: usize = 0;
    while i < list.len()
        invariant
            i <= list@.len(),
            forall|j: int| 0 <= j < i ==> list@[j] != *who,
        decreases list@.len() - i,
    {
        if list[i].same(who) {
            assert(list@[i as int] == *who);
            return true;
        }
        i = i + 1;
    }
    false
}

/// One relayer's approval of a trade batch.
#[derive(Clone, Copy, Debug, PartialEq, Eq)]
pub struct RelayerSignature {
    pub relayer: Address,
    pub signed_at: i64,
}

/// Has `relayer` already signed among `sigs`?
pub open spec fn signed_by(sigs: Seq<RelayerSignature>, relayer: Address) -> bool {
    exists|i: int| 0 <= i < sigs.len() && #[trigger] sigs[i].relayer == relayer
}

/// No relayer appears twice among `sigs`.
pub open spec fn distinct_signers(sigs: Seq<RelayerSignature>) -> bool {
    forall|i: int, j: int| 0 <= i < j < sigs.len() ==> sigs[i].relayer != sigs[j].relayer
}

/// The signatures after `relayer` signs at `ts`: refused when it already signed.
pub open spec fn signed_spec(sigs: Seq<RelayerSignature>, relayer: Address, ts: i64) -> Result<Seq<RelayerSignature>, LedgerError> {
    if signed_by(sigs, relayer) {
        Err(LedgerError::RelayerAlreadySigned)
    } else {
        Ok(sigs.push(RelayerSignature { relayer, signed_at: ts }))
    }
}

/// A batch of trades awaiting or past quorum approval.
#[derive(Clone, Debug, PartialEq, Eq)]
pub struct TradeBatch {
    pub batch_id: u64,
    /// Commitment to the trade payload.
    pub data_hash: [u8; 32],
    pub signatures: Vec<RelayerSignature>,
    pub executed: bool,
    pub created_at: i64,
    pub expires_at: i64,
    /// The relayer that submitted the batch.
    pub creator: Address,
    pub bump: u8,
}

impl TradeBatch {
    /// Well-formedness: each relayer signed at most once.
    pub open spec fn wf(&self) -> bool {
        distinct_signers(self.signatures@)
    }

    /// Records `relayer`'s signature at `timestamp`, unless it already
    /// signed, which fails with `RelayerAlreadySigned` and changes nothing.
    pub fn add_signature(&mut self, relayer: Address, timestamp: i64) -> (r: Result<(), LedgerError>)
        ensures
            match signed_spec(old(self).signatures@, relayer, timestamp) {
                Ok(s) => r == Ok::<(), LedgerError>(()) && final(self).signatures@ == s,
                Err(e) => r == Err::<(), LedgerError>(e) && final(self).signatures@ == old(self).signatures@,
            },
            old(self).wf() ==> final(self).wf(),
            final(self).batch_id == old(self).batch_id,
            final(self).data_hash == old(self).data_hash,
            final(self).executed == old(self).executed,
            final(self).created_at == old(self).created_at,
            final(self).expires_at == old(self).expires_at,
            final(self).creator == old(self).creator,
            final(self).bump == old(self).bump,
    {
        let mut i: usize = 0;
        while i < self.signatures.len()
            invariant
                i <= self.signatures@.len(),
                forall|j: int| 0 <= j < i ==> self.signatures@[j].relayer != relayer,
            decreases self.signatures@.len() - i,
        {
            if self.signatures[i].relayer.same(&relayer) {
                assert(self.signatures@[i as int].relayer == relayer);
                return Err(LedgerError::RelayerAlreadySigned);
            }
            i = i + 1;
        }
        self.signatures.push(RelayerSignature { relayer, signed_at: timestamp });
        Ok(())
    }

    /// Is the batch past its expiry at `current_time`?
    pub fn is_expired(&self, current_time: i64) -> (r: bool)
        ensures
            r == (current_time > self.expires_at),
    {
        current_time > self.expires_at
    }

    /// Number of signatures collected, as a byte.
    pub fn signature_count(&self) -> (r: u8)
        ensures
            r == self.signatures@.len() as u8,
            self.signatures@.len() <= u8::MAX ==> r == self.signatures@.len(),
    {
        self.signatures.len() as u8
    }

    /// Does the plain SHA-256 of `data` match the stored commitment?
    pub fn verify_hash(&self, data: &[u8]) -> (r: bool)
        ensures
            r == (sha256_of(data@) == self.data_hash@),
    {
        let computed = compute_hash(data);
        constant_time_compare(&computed, &self.data_hash)
    }
}

/// The signatures after each of `relayers` signs in turn, relayer `i` at
/// time `stamps[i]`.
pub open spec fn signed_all(sigs: Seq<RelayerSignature>, relayers: Seq<Address>, stamps: Seq<i64>) -> Result<Seq<RelayerSignature>, LedgerError>
    decreases relayers.len(),
{
    if relayers.len() == 0 {
        Ok(sigs)
    } else {
        let k = relayers.len() - 1;
        match signed_all(sigs, relayers.drop_last(), stamps) {
            Ok(s) => signed_spec(s, relayers[k], stamps[k]),
            Err(e) => Err(e),
        }
    }
}

/// A relayer that has signed cannot sign the same batch again.
pub proof fn lemma_second_signature_refused(sigs: Seq<RelayerSignature>, relayer: Address, t1: i64, t2: i64)
    requires
        signed_spec(sigs, relayer, t1) is Ok,
    ensures
        signed_spec(signed_spec(sigs, relayer, t1)->Ok_0, relayer, t2)
            == Err::<Seq<RelayerSignature>, LedgerError>(LedgerError::RelayerAlreadySigned),
{
    let s = signed_spec(sigs, relayer, t1)->Ok_0;
    assert(s[sigs.len() as int].relayer == relayer);
}

/// Signatures from N distinct relayers, each at its own time, collected
/// from none, are all accepted and number exactly N: signature `i` is
/// relayer `i`'s, taken at `stamps[i]`.
pub proof fn lemma_distinct_signers_counted(relayers: Seq<Address>, stamps: Seq<i64>)
    requires
        distinct_addresses(relayers),
        stamps.len() == relayers.len(),
    ensures
        signed_all(Seq::empty(), relayers, stamps) is Ok,
        signed_all(Seq::empty(), relayers, stamps)->Ok_0.len() == relayers.len(),
        distinct_signers(signed_all(Seq::empty(), relayers, stamps)->Ok_0),
        forall|i: int| 0 <= i < relayers.len() ==>
            #[trigger] signed_all(Seq::empty(), relayers, stamps)->Ok_0[i] == (RelayerSignature {
                relayer: relayers[i],
                signed_at: stamps[i],
            }),
    decreases relayers.len(),
{
    if relayers.len() > 0 {
        let k = relayers.len() - 1;
        let prefix = relayers.drop_last();
        let pstamps = stamps.drop_last();
        assert(distinct_addresses(prefix));
        lemma_distinct_signers_counted(prefix, pstamps);
        lemma_signed_all_prefix_stamps(prefix, stamps, pstamps);
        let s = signed_all(Seq::empty(), prefix, stamps)->Ok_0;
        let last = relayers[k];
        if signed_by(s, last) {
            let i = choose|i: int| 0 <= i < s.len() && #[trigger] s[i].relayer == last;
            assert(s[i].relayer == prefix[i]);
            assert(relayers[i] != relayers[k]);
        }
        let s2 = s.push(RelayerSignature { relayer: last, signed_at: stamps[k] });
        assert(signed_all(Seq::empty(), relayers, stamps) == Ok::<Seq<RelayerSignature>, LedgerError>(s2));
        assert forall|i: int| 0 <= i < relayers.len() implies #[trigger] s2[i] == (RelayerSignature {
            relayer: relayers[i],
            signed_at: stamps[i],
        }) by {
            if i < prefix.len() {
                assert(s[i] == (RelayerSignature { relayer: prefix[i], signed_at: pstamps[i] }));
            }
        }
    }
}

/// Only the first `relayers.len()` stamps matter.
proof fn lemma_signed_all_prefix_stamps(relayers: Seq<Address>, stamps: Seq<i64>, other: Seq<i64>)
    requires
        relayers.len() <= stamps.len(),
        relayers.len() <= other.len(),
        forall|i: int| 0 <= i < relayers.len() ==> stamps[i] == other[i],
    ensures
        signed_all(Seq::empty(), relayers, stamps) == signed_all(Seq::empty(), relayers, other),
    decreases relayers.len(),
{
    if relayers.len() > 0 {
        lemma_signed_all_prefix_stamps(relayers.drop_last(), stamps, other);
    }
}

/// The quorum test is monotonic: more signatures never lose a quorum.
pub proof fn lemma_quorum_monotonic(required: u8, n: u8, m: u8)
    requires
        n <= m,
        has_quorum(required, n),
    ensures
        has_quorum(required, m),
{
}

/// Per-user running statistics, created on a user's first trade.
#[derive(Clone, Copy, Debug, PartialEq, Eq)]
pub struct UserStats {
    pub user: Address,
    pub total_trades: u64,
    pub total_volume_e6: u64,
    pub total_realized_pnl_e6: i64,
    pub total_fees_paid_e6: u64,
    pub total_funding_paid_e6: i64,
    pub total_liquidations: u64,
    pub first_trade_at: i64,
    pub last_trade_at: i64,
    pub bump: u8,
}

impl UserStats {
    /// A fresh record for `user`: every counter and timestamp zero.
    pub fn new(user: Address, bump: u8) -> (r: UserStats)
        ensures
            r == (UserStats {
                user,
                total_trades: 0,
                total_volume_e6: 0,
                total_realized_pnl_e6: 0,
                total_fees_paid_e6: 0,
                total_funding_paid_e6: 0,
                total_liquidations: 0,
                first_trade_at: 0,
                last_trade_at: 0,
                bump,
            }),
    {
        UserStats {
            user,
            total_trades: 0,
            total_volume_e6: 0,
            total_realized_pnl_e6: 0,
            total_fees_paid_e6: 0,
            total_funding_paid_e6: 0,
            total_liquidations: 0,
            first_trade_at: 0,
            last_trade_at: 0,
            bump,
        }
    }
}

/// A fill as recorded for the trade history.
#[derive(Clone, Copy, Debug, PartialEq, Eq)]
pub struct TradeRecord {
    pub sequence: u64,
    pub user: Address,
    pub market_index: u8,
    /// 0 open, 1 close, 2 liquidation, 3 ADL, 4 funding.
    pub trade_type: u8,
    pub side: Side,
    pub size_e6: u64,
    pub price_e6: u64,
    pub realized_pnl_e6: i64,
    pub fee_e6: u64,
    pub margin_locked_e6: u64,
    pub margin_released_e6: u64,
    pub timestamp: i64,
    pub batch_id: u64,
    pub bump: u8,
}

/// Outcome of a binary prediction market.
#[derive(Clone, Copy, Debug, PartialEq, Eq, Structural)]
pub enum PredictionOutcome {
    Yes,
    No,
}

/// Lifecycle of a prediction-market position.
#[derive(Clone, Copy, Debug, PartialEq, Eq, Structural)]
pub enum PredictionMarketPositionStatus {
    Active,
    Settled,
    Claimed,
}

/// Shares held on one outcome of a prediction market; prices are e6
/// fractions of one unit, and margin is one for one.
#[derive(Clone, Copy, Debug, PartialEq, Eq)]
pub struct PredictionMarketPosition {
    pub user: Address,
    pub event_id: [u8; 32],
    pub outcome: PredictionOutcome,
    pub shares_e6: u64,
    pub avg_price_e6: u64,
    pub margin_e6: u64,
    pub status: PredictionMarketPositionStatus,
    pub settlement_price_e6: u64,
    pub realized_pnl_e6: i64,
    pub created_at: i64,
    pub settled_at: i64,
    pub claimed_at: i64,
    pub bump: u8,
}

/// `shares * delta / 1e6`, rounded toward zero, as a signed 64-bit value
/// (two's-complement wrap-around beyond its range). Shares are read as
/// signed 64-bit values, as stored.
pub open spec fn share_value(shares: u64, delta: int) -> i64 {
    trunc_div((shares as i64) * delta, 1_000_000) as i64
}

impl PredictionMarketPosition {
    /// Nothing left to hold: no shares, or already claimed.
    pub fn is_empty(&self) -> (r: bool)
        ensures
            r == (self.shares_e6 == 0 || self.status == PredictionMarketPositionStatus::Claimed),
    {
        self.shares_e6 == 0 || self.status == PredictionMarketPositionStatus::Claimed
    }

    /// Settled or claimed.
    pub fn is_settled(&self) -> (r: bool)
        ensures
            r == (self.status == PredictionMarketPositionStatus::Settled
                || self.status == PredictionMarketPositionStatus::Claimed),
    {
        self.status == PredictionMarketPositionStatus::Settled || self.status
            == PredictionMarketPositionStatus::Claimed
    }

    /// Mark-to-market PnL at `current_price_e6`:
    /// `shares * (current - avg) / 1e6`; zero without shares.
    pub fn calculate_unrealized_pnl(&self, current_price_e6: u64) -> (r: i64)
        ensures
            self.shares_e6 == 0 ==> r == 0,
            self.shares_e6 != 0 ==> r == share_value(
                self.shares_e6,
                (current_price_e6 as i64) - (self.avg_price_e6 as i64),
            ),
    {
        if self.shares_e6 == 0 {
            return 0;
        }
        let diff = (current_price_e6 as i64 as i128) - (self.avg_price_e6 as i64 as i128);
        scaled_share_value(self.shares_e6, diff)
    }

    /// PnL at settlement: a winning position gains `shares * (1 - avg)`, a
    /// losing one loses `shares * avg`; zero without shares.
    pub fn calculate_settlement_pnl(&self, winning_outcome: PredictionOutcome) -> (r: i64)
        ensures
            self.shares_e6 == 0 ==> r == 0,
            self.shares_e6 != 0 && self.outcome == winning_outcome ==> r == share_value(
                self.shares_e6,
                1_000_000 - (self.avg_price_e6 as i64),
            ),
            self.shares_e6 != 0 && self.outcome != winning_outcome ==> r == (-(share_value(
                self.shares_e6,
                self.avg_price_e6 as i64 as int,
            ) as int)) as i64,
    {
        if self.shares_e6 == 0 {
            return 0;
        }
        if self.outcome == winning_outcome {
            let profit_per_share = 1_000_000i128 - (self.avg_price_e6 as i64 as i128);
            scaled_share_value(self.shares_e6, profit_per_share)
        } else {
            let loss = scaled_share_value(self.shares_e6, self.avg_price_e6 as i64 as i128);
            let negated: i128 = 0i128 - (loss as i128);
            (#[verifier::truncate] (negated as i64))
        }
    }
}

/// `shares * delta / 1e6` in 128 bits, narrowed as `share_value` says.
fn scaled_share_value(shares_e6: u64, delta: i128) -> (r: i64)
    requires
        -0x1_0000_0000_0000_0000 < delta < 0x1_0000_0000_0000_0000,
    ensures
        r == share_value(shares_e6, delta as int),
{
    let shares = shares_e6 as i64 as i128;
    assert(-0x8000_0000_0000_0000_0000_0000_0000_0000 < (shares as int) * (delta as int)
        < 0x8000_0000_0000_0000_0000_0000_0000_0000) by (nonlinear_arith)
        requires
            -0x8000_0000_0000_0000 <= shares < 0x8000_0000_0000_0000,
            -0x1_0000_0000_0000_0000 < delta < 0x1_0000_0000_0000_0000,
    ;
    let q = shares * delta / 1_000_000i128;
    (#[verifier::truncate] (q as i64))
}

/// A prediction-market event and its resolution.
#[derive(Clone, Copy, Debug, PartialEq, Eq)]
pub struct PredictionMarketEvent {
    pub event_id: [u8; 32],
    pub name: [u8; 64],
    pub description: [u8; 256],
    pub yes_supply_e6: u64,
    pub no_supply_e6: u64,
    pub yes_price_e6: u64,
    pub end_time: i64,
    pub is_settled: bool,
    pub winning_outcome: Option<PredictionOutcome>,
    pub settled_at: i64,
    pub creator: Address,
    pub created_at: i64,
    pub bump: u8,
}

/// Direction of a spot trade.
#[derive(Clone, Copy, Debug, PartialEq, Eq, Structural)]
pub enum SpotSide {
    Buy,
    Sell,
}

/// A spot fill as recorded for the trade history.
#[derive(Clone, Copy, Debug, PartialEq, Eq)]
pub struct SpotTradeRecord {
    pub sequence: u64,
    pub user: Address,
    pub market_index: u16,
    pub side: SpotSide,
    pub base_amount_e6: u64,
    pub quote_amount_e6: u64,
    pub price_e6: u64,
    pub fee_e6: u64,
    /// 0 taker, 1 maker.
    pub fee_type: u8,
    pub timestamp: i64,
    pub batch_id: u64,
    pub bump: u8,
}

} // verus!
