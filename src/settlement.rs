//! Settlement orchestrator: applies an open or a close to a position, the
//! global totals and the user's statistics, and says which custody call the
//! host must then make.

use vstd::prelude::*;
use crate::error::LedgerError;
use crate::math::{
    calculate_fee, calculate_required_margin, wide_mul, checked_add, checked_add_u64, checked_sub_u64, div_e6,
    div_e6_spec, fee_spec, fits_i64, fits_u64, mul_e6, mul_e6_spec, required_margin_spec,
};
use crate::state::{
    increased_position, liquidation_price_result, pnl_result, Address, LedgerConfig, Position, Side,
    UserStats, MAX_LEVERAGE, TRADING_FEE_RATE_E6,
};

verus! {

/// Trade kind tag of an open.
pub const TRADE_KIND_OPEN: u8 = 0;

/// Trade kind tag of a close.
pub const TRADE_KIND_CLOSE: u8 = 1;

/// One trade of a batch, or a standalone open or close.
#[derive(Clone, Copy, Debug, PartialEq, Eq)]
pub struct TradeData {
    pub user: Address,
    pub market_index: u8,
    /// `TRADE_KIND_OPEN` or `TRADE_KIND_CLOSE`; other values are skipped.
    pub trade_type: u8,
    pub side: Side,
    pub size_e6: u64,
    pub price_e6: u64,
    /// Leverage, used by opens only.
    pub leverage: u8,
}

/// A request the ledger makes of one of its two collaborators: the custody
/// service holding user collateral, or the reserve holding the insurance
/// pool.
#[derive(Clone, Copy, Debug, PartialEq, Eq)]
pub enum CollaboratorCall {
    /// Custody: lock `amount` of the user's collateral.
    LockMargin { amount: u64 },
    /// Custody: release `amount` of the user's locked collateral.
    ReleaseMargin { amount: u64 },
    /// Custody: release margin and apply realized PnL and fee.
    SettleClose { margin_to_release: u64, realized_pnl: i64, fee: u64 },
    /// Custody: zero the locked margin, pay the remainder, move the penalty
    /// to the reserve's vault.
    LiquidatePosition { margin: u64, user_remainder: u64, liquidation_penalty: u64 },
    /// Reserve: record liquidation income.
    AddLiquidationIncome { amount_e6: i64 },
    /// Reserve: record auto-deleveraging profit.
    AddAdlProfit { amount_e6: i64 },
    /// Reserve: pay a shortfall out of the insurance pool.
    CoverShortfall { shortfall_e6: i64 },
    /// Reserve: set or clear the pool-wide auto-deleveraging flag.
    SetAdlInProgress { in_progress: bool },
    /// Reserve: record a trading fee.
    AddTradingFee { fee_e6: i64 },
}

/// What a close settled.
#[derive(Clone, Copy, Debug, PartialEq, Eq)]
pub struct CloseOutcome {
    pub close_size_e6: u64,
    pub realized_pnl_e6: i64,
    pub margin_released_e6: u64,
    pub fee_e6: u64,
}

/// Informational volume of a trade, `size * price / 1e6`, saturating at the
/// top of the `u64` range.
pub open spec fn trade_volume(size: u64, price: u64) -> u64 {
    let v = (size * price) / 1_000_000;
    if v > u64::MAX { u64::MAX } else { v as u64 }
}

/// Saturating `u64` addition.
pub open spec fn sat_add(a: u64, b: u64) -> u64 {
    if a + b > u64::MAX { u64::MAX } else { (a + b) as u64 }
}

/// A position created by a first open.
pub open spec fn fresh_position(trade: TradeData, margin: u64, liq: u64, bump: u8, now: i64) -> Position {
    Position {
        user: trade.user,
        market_index: trade.market_index,
        side: trade.side,
        size_e6: trade.size_e6,
        entry_price_e6: trade.price_e6,
        margin_e6: margin,
        leverage: trade.leverage,
        liquidation_price_e6: liq,
        unrealized_pnl_e6: 0,
        last_funding_ts: now,
        cumulative_funding_e6: 0,
        open_order_count: 0,
        opened_at: now,
        last_update_ts: now,
        bump,
    }
}

/// Margin and fee owed by an open, after validating its size, price and
/// leverage.
pub open spec fn open_charges(trade: TradeData) -> Result<(u64, u64), LedgerError> {
    if trade.size_e6 == 0 {
        Err(LedgerError::InvalidTradeAmount)
    } else if trade.price_e6 == 0 {
        Err(LedgerError::InvalidPrice)
    } else if trade.leverage == 0 || trade.leverage > MAX_LEVERAGE {
        Err(LedgerError::InvalidLeverage)
    } else {
        let margin = required_margin_spec(trade.size_e6 as int, trade.price_e6 as int, trade.leverage as int);
        let fee = fee_spec(trade.size_e6 as int, trade.price_e6 as int, TRADING_FEE_RATE_E6 as int);
        if !fits_u64(margin) {
            Err(LedgerError::Overflow)
        } else if trade.size_e6 * trade.price_e6 * TRADING_FEE_RATE_E6 > u128::MAX || !fits_u64(fee) {
            Err(LedgerError::Overflow)
        } else {
            Ok((margin as u64, fee as u64))
        }
    }
}

/// Does the slot hold a live (non-empty) position?
pub open spec fn holds_position(slot: Option<Position>) -> bool {
    slot is Some && slot->Some_0.size_e6 > 0
}

/// The position after an open with the given margin: created afresh when
/// the slot is absent or emptied, otherwise increased on the same side.
pub open spec fn opened_position(slot: Option<Position>, trade: TradeData, margin: u64, bump: u8, now: i64) -> Result<Position, LedgerError> {
    if !holds_position(slot) {
        match liquidation_price_result(trade.side, trade.price_e6, trade.leverage) {
            Ok(liq) => Ok(fresh_position(trade, margin, liq, bump, now)),
            Err(e) => Err(e),
        }
    } else {
        let p = slot->Some_0;
        if p.side != trade.side {
            Err(LedgerError::InvalidPositionSide)
        } else {
            match increased_position(p, trade.size_e6, trade.price_e6) {
                Ok(q) => if fits_u64(q.margin_e6 + margin) {
                    Ok(Position { margin_e6: (q.margin_e6 + margin) as u64, last_update_ts: now, ..q })
                } else {
                    Err(LedgerError::Overflow)
                },
                Err(e) => Err(e),
            }
        }
    }
}

/// Global totals after an open or close: `opened` tells which counter moves.
pub open spec fn config_after_trade(c: LedgerConfig, opened: bool, volume: u64, fee: u64, now: i64) -> Result<LedgerConfig, LedgerError> {
    if opened && c.total_positions_opened == u64::MAX {
        Err(LedgerError::Overflow)
    } else if !opened && c.total_positions_closed == u64::MAX {
        Err(LedgerError::Overflow)
    } else if !fits_u64(c.total_fees_collected_e6 + fee) {
        Err(LedgerError::Overflow)
    } else {
        Ok(LedgerConfig {
            total_positions_opened: if opened { (c.total_positions_opened + 1) as u64 } else { c.total_positions_opened },
            total_positions_closed: if opened { c.total_positions_closed } else { (c.total_positions_closed + 1) as u64 },
            total_volume_e6: sat_add(c.total_volume_e6, volume),
            total_fees_collected_e6: (c.total_fees_collected_e6 + fee) as u64,
            last_update_ts: now,
            ..c
        })
    }
}

/// User statistics after one trade.
pub open spec fn stats_after_trade(s: UserStats, volume: u64, fee: u64, pnl: i64, now: i64) -> Result<UserStats, LedgerError> {
    if s.total_trades == u64::MAX || !fits_u64(s.total_fees_paid_e6 + fee)
        || !fits_i64(s.total_realized_pnl_e6 + pnl) {
        Err(LedgerError::Overflow)
    } else {
        Ok(UserStats {
            total_trades: (s.total_trades + 1) as u64,
            total_volume_e6: sat_add(s.total_volume_e6, volume),
            total_realized_pnl_e6: (s.total_realized_pnl_e6 + pnl) as i64,
            total_fees_paid_e6: (s.total_fees_paid_e6 + fee) as u64,
            first_trade_at: if s.first_trade_at == 0 { now } else { s.first_trade_at },
            last_trade_at: now,
            ..s
        })
    }
}

/// The whole effect of an open on the position slot, the totals and the
/// user's statistics, and the margin plus fee to lock.
pub open spec fn open_effect(c: LedgerConfig, slot: Option<Position>, s: UserStats, trade: TradeData, bump: u8, now: i64) -> Result<(LedgerConfig, Position, UserStats, u64), LedgerError> {
    match open_charges(trade) {
        Err(e) => Err(e),
        Ok((margin, fee)) => match opened_position(slot, trade, margin, bump, now) {
            Err(e) => Err(e),
            Ok(p) => if !fits_u64(margin + fee) {
                Err(LedgerError::Overflow)
            } else {
                let volume = trade_volume(trade.size_e6, trade.price_e6);
                match config_after_trade(c, true, volume, fee, now) {
                    Err(e) => Err(e),
                    Ok(c2) => match stats_after_trade(s, volume, fee, 0, now) {
                        Err(e) => Err(e),
                        Ok(s2) => Ok((c2, p, s2, (margin + fee) as u64)),
                    },
                }
            },
        },
    }
}

/// Volume of a trade as the totals record it.
pub fn volume_of(size_e6: u64, price_e6: u64) -> (r: u64)
    ensures
        r == trade_volume(size_e6, price_e6),
{
    let v = wide_mul(size_e6, price_e6) / 1_000_000u128;
    if v > u64::MAX as u128 {
        u64::MAX
    } else {
        v as u64
    }
}

/// Updates the global totals for one trade; unchanged on failure.
fn record_in_config(c: &mut LedgerConfig, opened: bool, volume: u64, fee: u64, now: i64) -> (r: Result<(), LedgerError>)
    ensures
        match config_after_trade(*old(c), opened, volume, fee, now) {
            Ok(c2) => r == Ok::<(), LedgerError>(()) && *final(c) == c2,
            Err(e) => r == Err::<(), LedgerError>(e) && *final(c) == *old(c),
        },
{
    if opened && c.total_positions_opened == u64::MAX {
        return Err(LedgerError::Overflow);
    }
    if !opened && c.total_positions_closed == u64::MAX {
        return Err(LedgerError::Overflow);
    }
    let fees = checked_add_u64(c.total_fees_collected_e6, fee)?;
    if opened {
        c.total_positions_opened = c.total_positions_opened + 1;
    } else {
        c.total_positions_closed = c.total_positions_closed + 1;
    }
    c.total_volume_e6 = c.total_volume_e6.saturating_add(volume);
    c.total_fees_collected_e6 = fees;
    c.last_update_ts = now;
    Ok(())
}

/// Updates a user's statistics for one trade; unchanged on failure.
pub fn record_in_stats(s: &mut UserStats, volume: u64, fee: u64, pnl: i64, now: i64) -> (r: Result<(), LedgerError>)
    ensures
        match stats_after_trade(*old(s), volume, fee, pnl, now) {
            Ok(s2) => r == Ok::<(), LedgerError>(()) && *final(s) == s2,
            Err(e) => r == Err::<(), LedgerError>(e) && *final(s) == *old(s),
        },
{
    if s.total_trades == u64::MAX {
        return Err(LedgerError::Overflow);
    }
    let fees = checked_add_u64(s.total_fees_paid_e6, fee)?;
    let realized = checked_add(s.total_realized_pnl_e6, pnl)?;
    s.total_trades = s.total_trades + 1;
    s.total_volume_e6 = s.total_volume_e6.saturating_add(volume);
    s.total_realized_pnl_e6 = realized;
    s.total_fees_paid_e6 = fees;
    if s.first_trade_at == 0 {
        s.first_trade_at = now;
    }
    s.last_trade_at = now;
    Ok(())
}

/// Validates an open and computes its margin and fee.
fn open_charges_of(trade: &TradeData) -> (r: Result<(u64, u64), LedgerError>)
    ensures
        r == open_charges(*trade),
{
    if trade.size_e6 == 0 {
        return Err(LedgerError::InvalidTradeAmount);
    }
    if trade.price_e6 == 0 {
        return Err(LedgerError::InvalidPrice);
    }
    if trade.leverage == 0 || trade.leverage > MAX_LEVERAGE {
        return Err(LedgerError::InvalidLeverage);
    }
    let margin = calculate_required_margin(trade.size_e6, trade.price_e6, trade.leverage)?;
    let fee = calculate_fee(trade.size_e6, trade.price_e6, TRADING_FEE_RATE_E6)?;
    Ok((margin, fee))
}

/// The position after an open, computed without touching the slot.
fn opened_position_of(slot: &Option<Position>, trade: &TradeData, margin: u64, bump: u8, now: i64) -> (r: Result<Position, LedgerError>)
    ensures
        r == opened_position(*slot, *trade, margin, bump, now),
{
    let live = match slot {
        Some(p) => p.size_e6 > 0,
        None => false,
    };
    if !live {
        let liq = crate::state::liquidation_price_for(trade.side, trade.price_e6, trade.leverage)?;
            Ok(Position {
                user: trade.user,
                market_index: trade.market_index,
                side: trade.side,
                size_e6: trade.size_e6,
                entry_price_e6: trade.price_e6,
                margin_e6: margin,
                leverage: trade.leverage,
                liquidation_price_e6: liq,
                unrealized_pnl_e6: 0,
                last_funding_ts: now,
                cumulative_funding_e6: 0,
                open_order_count: 0,
                opened_at: now,
                last_update_ts: now,
                bump,
            })
    } else {
        let mut p = match slot {
            Some(existing) => *existing,
            None => {
                return Err(LedgerError::PositionNotFound);
            },
        };
        if p.side != trade.side {
            return Err(LedgerError::InvalidPositionSide);
        }
        p.update_entry_price(trade.size_e6, trade.price_e6)?;
        p.margin_e6 = checked_add_u64(p.margin_e6, margin)?;
        p.last_update_ts = now;
        Ok(p)
    }
}

/// Applies an open (already cleared of the pause and custody checks): the
/// slot's position is created or increased, the totals and the user's
/// statistics are updated, and the custody call to lock margin plus fee is
/// returned. On failure nothing changes.
pub fn settle_open(
    config: &mut LedgerConfig,
    slot: &mut Option<Position>,
    stats: &mut UserStats,
    trade: &TradeData,
    position_bump: u8,
    now: i64,
) -> (r: Result<CollaboratorCall, LedgerError>)
    ensures
        match open_effect(*old(config), *old(slot), *old(stats), *trade, position_bump, now) {
            Ok((c2, p2, s2, lock)) => r == Ok::<CollaboratorCall, LedgerError>(CollaboratorCall::LockMargin { amount: lock })
                && *final(config) == c2 && *final(slot) == Some(p2) && *final(stats) == s2,
            Err(e) => r == Err::<CollaboratorCall, LedgerError>(e)
                && *final(config) == *old(config) && *final(slot) == *old(slot) && *final(stats) == *old(stats),
        },
        r is Ok ==> (*final(slot)) is Some && (*final(slot))->Some_0.wf(),
{
    let (margin, fee) = open_charges_of(trade)?;
    let p = opened_position_of(slot, trade, margin, position_bump, now)?;
    let lock = checked_add_u64(margin, fee)?;
    let volume = volume_of(trade.size_e6, trade.price_e6);
    let mut c2 = *config;
    record_in_config(&mut c2, true, volume, fee, now)?;
    let mut s2 = *stats;
    record_in_stats(&mut s2, volume, fee, 0, now)?;
    *config = c2;
    *slot = Some(p);
    *stats = s2;
    Ok(CollaboratorCall::LockMargin { amount: lock })
}

/// The position and outcome of closing up to `size` at `price`.
pub open spec fn closed_position(p: Position, user: Address, market_index: u8, size: u64, price: u64, now: i64) -> Result<(Position, CloseOutcome), LedgerError> {
    if size == 0 {
        Err(LedgerError::InvalidTradeAmount)
    } else if price == 0 {
        Err(LedgerError::InvalidPrice)
    } else if p.user != user || p.market_index != market_index || p.size_e6 == 0 {
        Err(LedgerError::PositionNotFound)
    } else if p.size_e6 > i64::MAX || p.margin_e6 > i64::MAX {
        Err(LedgerError::Overflow)
    } else {
        let close = if size < p.size_e6 { size } else { p.size_e6 };
        let ratio = div_e6_spec(close as int, p.size_e6 as int);
        match pnl_result(p.side, p.size_e6, p.entry_price_e6, price) {
            Err(e) => Err(e),
            Ok(pnl) => {
                let realized = mul_e6_spec(pnl as int, ratio);
                let release = mul_e6_spec(p.margin_e6 as int, ratio);
                let fee = fee_spec(close as int, price as int, TRADING_FEE_RATE_E6 as int);
                if close * price * TRADING_FEE_RATE_E6 > u128::MAX || !fits_u64(fee) {
                    Err(LedgerError::Overflow)
                } else {
                    let outcome = CloseOutcome {
                        close_size_e6: close,
                        realized_pnl_e6: realized as i64,
                        margin_released_e6: release as u64,
                        fee_e6: fee as u64,
                    };
                    if close == p.size_e6 {
                        Ok((Position {
                            size_e6: 0,
                            margin_e6: 0,
                            entry_price_e6: 0,
                            liquidation_price_e6: 0,
                            unrealized_pnl_e6: 0,
                            last_update_ts: now,
                            ..p
                        }, outcome))
                    } else {
                        match liquidation_price_result(p.side, p.entry_price_e6, p.leverage) {
                            Err(e) => Err(e),
                            Ok(liq) => Ok((Position {
                                size_e6: (p.size_e6 - close) as u64,
                                margin_e6: (p.margin_e6 - release) as u64,
                                liquidation_price_e6: liq,
                                last_update_ts: now,
                                ..p
                            }, outcome)),
                        }
                    }
                }
            },
        }
    }
}

/// The whole effect of a close on the position, the totals and the user's
/// statistics. The volume recorded is that of the size requested when
/// `count_requested` holds (a close inside a batch), otherwise that of the
/// size actually closed (a standalone close).
pub open spec fn close_effect(c: LedgerConfig, p: Position, s: UserStats, trade: TradeData, count_requested: bool, now: i64) -> Result<(LedgerConfig, Position, UserStats, CloseOutcome), LedgerError> {
    match closed_position(p, trade.user, trade.market_index, trade.size_e6, trade.price_e6, now) {
        Err(e) => Err(e),
        Ok((p2, o)) => {
            let volume = trade_volume(if count_requested { trade.size_e6 } else { o.close_size_e6 }, trade.price_e6);
            match config_after_trade(c, false, volume, o.fee_e6, now) {
                Err(e) => Err(e),
                Ok(c2) => match stats_after_trade(s, volume, o.fee_e6, o.realized_pnl_e6, now) {
                    Err(e) => Err(e),
                    Ok(s2) => Ok((c2, p2, s2, o)),
                },
            }
        },
    }
}

/// The custody call that settles a close.
pub open spec fn settle_close_call(o: CloseOutcome) -> CollaboratorCall {
    CollaboratorCall::SettleClose {
        margin_to_release: o.margin_released_e6,
        realized_pnl: o.realized_pnl_e6,
        fee: o.fee_e6,
    }
}

/// Closes up to `size_e6` of a position at `price_e6`, computed without
/// touching the position.
pub fn close_position_of(p: &Position, user: &Address, market_index: u8, size_e6: u64, price_e6: u64, now: i64) -> (r: Result<(Position, CloseOutcome), LedgerError>)
    ensures
        r == closed_position(*p, *user, market_index, size_e6, price_e6, now),
{
    if size_e6 == 0 {
        return Err(LedgerError::InvalidTradeAmount);
    }
    if price_e6 == 0 {
        return Err(LedgerError::InvalidPrice);
    }
    if !p.user.same(user) || p.market_index != market_index || p.is_empty() {
        return Err(LedgerError::PositionNotFound);
    }
    if p.size_e6 > i64::MAX as u64 || p.margin_e6 > i64::MAX as u64 {
        return Err(LedgerError::Overflow);
    }
    let close_size = if size_e6 < p.size_e6 { size_e6 } else { p.size_e6 };
    assert(0 <= (close_size as int) * 1_000_000 / (p.size_e6 as int) <= 1_000_000) by (nonlinear_arith)
        requires
            close_size <= p.size_e6,
            p.size_e6 > 0,
    ;
    let close_ratio = div_e6(close_size as i64, p.size_e6 as i64)?;
    let pnl = p.calculate_unrealized_pnl(price_e6)?;
    if pnl >= 0 {
        assert(0 <= (pnl as int) * (close_ratio as int) / 1_000_000 <= pnl) by (nonlinear_arith)
            requires
                pnl >= 0,
                0 <= close_ratio <= 1_000_000,
        ;
    } else {
        assert(0 <= (-(pnl as int)) * (close_ratio as int) / 1_000_000 <= -(pnl as int)) by (nonlinear_arith)
            requires
                pnl < 0,
                0 <= close_ratio <= 1_000_000,
        ;
        assert(-((pnl as int) * (close_ratio as int)) == (-(pnl as int)) * (close_ratio as int)) by (nonlinear_arith);
        assert((pnl as int) * (close_ratio as int) <= 0) by (nonlinear_arith)
            requires
                pnl < 0,
                0 <= close_ratio,
        ;
    }
    assert(0 <= (p.margin_e6 as int) * (close_ratio as int) / 1_000_000 <= p.margin_e6) by (nonlinear_arith)
        requires
            0 <= close_ratio <= 1_000_000,
            p.margin_e6 >= 0,
    ;
    assert((p.margin_e6 as int) * (close_ratio as int) >= 0) by (nonlinear_arith)
        requires
            0 <= close_ratio,
            p.margin_e6 >= 0,
    ;
    let realized_pnl = mul_e6(pnl, close_ratio)?;
    let release = mul_e6(p.margin_e6 as i64, close_ratio)?;
    let margin_released = release as u64;
    let fee = calculate_fee(close_size, price_e6, TRADING_FEE_RATE_E6)?;
    let outcome = CloseOutcome {
        close_size_e6: close_size,
        realized_pnl_e6: realized_pnl,
        margin_released_e6: margin_released,
        fee_e6: fee,
    };
    let mut q = *p;
    if close_size == p.size_e6 {
        q.size_e6 = 0;
        q.margin_e6 = 0;
        q.entry_price_e6 = 0;
        q.liquidation_price_e6 = 0;
        q.unrealized_pnl_e6 = 0;
    } else {
        q.size_e6 = checked_sub_u64(p.size_e6, close_size)?;
        q.margin_e6 = checked_sub_u64(p.margin_e6, margin_released)?;
        q.liquidation_price_e6 = q.calculate_liquidation_price()?;
    }
    q.last_update_ts = now;
    Ok((q, outcome))
}

/// Applies a close (already cleared of the pause check): the position is
/// reduced or emptied, the totals and the user's statistics are updated, and
/// the custody call that settles margin, PnL and fee is returned. Volume is
/// counted on the requested size when `count_requested` holds, else on the
/// size closed. On failure nothing changes.
pub fn settle_close(
    config: &mut LedgerConfig,
    position: &mut Position,
    stats: &mut UserStats,
    trade: &TradeData,
    count_requested: bool,
    now: i64,
) -> (r: Result<CloseOutcome, LedgerError>)
    ensures
        match close_effect(*old(config), *old(position), *old(stats), *trade, count_requested, now) {
            Ok((c2, p2, s2, o)) => r == Ok::<CloseOutcome, LedgerError>(o)
                && *final(config) == c2 && *final(position) == p2 && *final(stats) == s2,
            Err(e) => r == Err::<CloseOutcome, LedgerError>(e)
                && *final(config) == *old(config) && *final(position) == *old(position) && *final(stats) == *old(stats),
        },
        old(position).wf() ==> final(position).wf(),
{
    let (p2, outcome) = close_position_of(position, &trade.user, trade.market_index, trade.size_e6, trade.price_e6, now)?;
    let counted = if count_requested { trade.size_e6 } else { outcome.close_size_e6 };
    let volume = volume_of(counted, trade.price_e6);
    let mut c2 = *config;
    record_in_config(&mut c2, false, volume, outcome.fee_e6, now)?;
    let mut s2 = *stats;
    record_in_stats(&mut s2, volume, outcome.fee_e6, outcome.realized_pnl_e6, now)?;
    *config = c2;
    *position = p2;
    *stats = s2;
    Ok(outcome)
}

/// Opens or increases a position outside a batch. Size, price and leverage
/// are validated first; then the ledger must not be paused (`LedgerPaused`)
/// and `vault_program` must be the configured custody service
/// (`InvalidVaultProgram`). Returns the custody call that locks margin plus
/// fee. On failure nothing changes.
pub fn open_position(
    config: &mut LedgerConfig,
    vault_program: &Address,
    slot: &mut Option<Position>,
    stats: &mut UserStats,
    trade: &TradeData,
    position_bump: u8,
    now: i64,
) -> (r: Result<CollaboratorCall, LedgerError>)
    ensures
        trade.size_e6 == 0 ==> r == Err::<CollaboratorCall, LedgerError>(LedgerError::InvalidTradeAmount),
        trade.size_e6 != 0 && trade.price_e6 == 0 ==> r == Err::<CollaboratorCall, LedgerError>(LedgerError::InvalidPrice),
        trade.size_e6 != 0 && trade.price_e6 != 0 && (trade.leverage == 0 || trade.leverage > MAX_LEVERAGE)
            ==> r == Err::<CollaboratorCall, LedgerError>(LedgerError::InvalidLeverage),
        trade.size_e6 != 0 && trade.price_e6 != 0 && 0 < trade.leverage <= MAX_LEVERAGE ==> {
            if old(config).is_paused {
                r == Err::<CollaboratorCall, LedgerError>(LedgerError::LedgerPaused)
            } else if *vault_program != old(config).vault_program {
                r == Err::<CollaboratorCall, LedgerError>(LedgerError::InvalidVaultProgram)
            } else {
                match open_effect(*old(config), *old(slot), *old(stats), *trade, position_bump, now) {
                    Ok((c2, p2, s2, lock)) => r == Ok::<CollaboratorCall, LedgerError>(CollaboratorCall::LockMargin { amount: lock })
                        && *final(config) == c2 && *final(slot) == Some(p2) && *final(stats) == s2,
                    Err(e) => r == Err::<CollaboratorCall, LedgerError>(e),
                }
            }
        },
        r is Err ==> *final(config) == *old(config) && *final(slot) == *old(slot) && *final(stats) == *old(stats),
{
    if trade.size_e6 == 0 {
        return Err(LedgerError::InvalidTradeAmount);
    }
    if trade.price_e6 == 0 {
        return Err(LedgerError::InvalidPrice);
    }
    if trade.leverage == 0 || trade.leverage > MAX_LEVERAGE {
        return Err(LedgerError::InvalidLeverage);
    }
    if config.is_paused {
        return Err(LedgerError::LedgerPaused);
    }
    if !vault_program.same(&config.vault_program) {
        return Err(LedgerError::InvalidVaultProgram);
    }
    settle_open(config, slot, stats, trade, position_bump, now)
}

/// Closes up to `trade.size_e6` of a position outside a batch. Size and price
/// are validated first; then the ledger must not be paused (`LedgerPaused`).
/// On failure nothing changes.
pub fn close_position(
    config: &mut LedgerConfig,
    position: &mut Position,
    stats: &mut UserStats,
    trade: &TradeData,
    now: i64,
) -> (r: Result<CloseOutcome, LedgerError>)
    ensures
        trade.size_e6 == 0 ==> r == Err::<CloseOutcome, LedgerError>(LedgerError::InvalidTradeAmount),
        trade.size_e6 != 0 && trade.price_e6 == 0 ==> r == Err::<CloseOutcome, LedgerError>(LedgerError::InvalidPrice),
        trade.size_e6 != 0 && trade.price_e6 != 0 ==> {
            if old(config).is_paused {
                r == Err::<CloseOutcome, LedgerError>(LedgerError::LedgerPaused)
            } else {
                match close_effect(*old(config), *old(position), *old(stats), *trade, false, now) {
                    Ok((c2, p2, s2, o)) => r == Ok::<CloseOutcome, LedgerError>(o)
                        && *final(config) == c2 && *final(position) == p2 && *final(stats) == s2,
                    Err(e) => r == Err::<CloseOutcome, LedgerError>(e),
                }
            }
        },
        r is Err ==> *final(config) == *old(config) && *final(position) == *old(position) && *final(stats) == *old(stats),
{
    if trade.size_e6 == 0 {
        return Err(LedgerError::InvalidTradeAmount);
    }
    if trade.price_e6 == 0 {
        return Err(LedgerError::InvalidPrice);
    }
    if config.is_paused {
        return Err(LedgerError::LedgerPaused);
    }
    settle_close(config, position, stats, trade, false, now)
}

} // verus!
