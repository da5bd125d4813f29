//! Liquidation and auto-deleveraging (ADL) risk engine, and funding accrual.

use vstd::prelude::*;
use crate::error::LedgerError;
use crate::math::{checked_add, checked_sub, fits_i64, i64_result, mul_e6, mul_e6_spec};
use crate::settlement::CollaboratorCall;
use crate::state::{
    liquidatable, pnl_result, Address, LedgerConfig, Position, Side, UserStats,
};

verus! {

/// How the equity left after a liquidation is split, as
/// `(user_remainder, penalty, shortfall)`: a bankrupt account (`margin + pnl
/// <= 0`) leaves the whole deficit as shortfall; otherwise a 1% penalty is
/// taken and the rest goes back to the user.
pub open spec fn liquidation_split(margin: int, pnl: int) -> Result<(u64, u64, u64), LedgerError> {
    let total = margin + pnl;
    if total <= 0 {
        Ok((0u64, 0u64, (-total) as u64))
    } else {
        let penalty = total * 10_000 / 1_000_000;
        if total - penalty > u64::MAX {
            Err(LedgerError::Overflow)
        } else {
            Ok(((total - penalty) as u64, penalty as u64, 0u64))
        }
    }
}

/// Splits the equity `margin + pnl` of a liquidated position into
/// `(user_remainder, penalty, shortfall)`.
pub fn calculate_liquidation_result(margin: u64, pnl: i64) -> (r: Result<(u64, u64, u64), LedgerError>)
    ensures
        r == liquidation_split(margin as int, pnl as int),
{
    let total: i128 = (margin as i128) + (pnl as i128);
    if total <= 0 {
        let shortfall = (0i128 - total) as u64;
        Ok((0, 0, shortfall))
    } else {
        assert(total <= 0x1_8000_0000_0000_0000);
        let penalty = total * 10_000i128 / 1_000_000i128;
        let remainder = total - penalty;
        if remainder > u64::MAX as i128 {
            Err(LedgerError::Overflow)
        } else {
            Ok((remainder as u64, penalty as u64, 0))
        }
    }
}

/// What a liquidation settled.
#[derive(Clone, Copy, Debug, PartialEq, Eq)]
pub struct LiquidationOutcome {
    /// PnL of the position at the liquidation mark.
    pub pnl_e6: i64,
    /// Margin that was locked against the position.
    pub margin_e6: u64,
    pub user_remainder_e6: u64,
    pub penalty_e6: u64,
    pub shortfall_e6: u64,
}

/// The position left by a liquidation: emptied, slot kept.
pub open spec fn liquidated_position(p: Position, now: i64) -> Position {
    Position {
        size_e6: 0,
        margin_e6: 0,
        entry_price_e6: 0,
        liquidation_price_e6: 0,
        unrealized_pnl_e6: 0,
        last_update_ts: now,
        ..p
    }
}

/// The whole effect of liquidating `p` at `mark`.
pub open spec fn liquidation_effect(
    c: LedgerConfig,
    fund_program: Address,
    p: Position,
    s: UserStats,
    user: Address,
    market_index: u8,
    mark: u64,
    now: i64,
) -> Result<(LedgerConfig, Position, UserStats, LiquidationOutcome), LedgerError> {
    if fund_program != c.fund_program {
        Err(LedgerError::InvalidProgramId)
    } else if p.user != user || p.market_index != market_index || p.size_e6 == 0 {
        Err(LedgerError::PositionNotFound)
    } else if !liquidatable(p.side, p.liquidation_price_e6, mark) {
        Err(LedgerError::PositionNotLiquidatable)
    } else {
        match pnl_result(p.side, p.size_e6, p.entry_price_e6, mark) {
            Err(e) => Err(e),
            Ok(pnl) => match liquidation_split(p.margin_e6 as int, pnl as int) {
                Err(e) => Err(e),
                Ok((rem, pen, short)) => if c.total_liquidations == u64::MAX || s.total_liquidations == u64::MAX
                    || !fits_i64(s.total_realized_pnl_e6 + pnl) {
                    Err(LedgerError::Overflow)
                } else {
                    Ok((
                        LedgerConfig { total_liquidations: (c.total_liquidations + 1) as u64, last_update_ts: now, ..c },
                        liquidated_position(p, now),
                        UserStats {
                            total_liquidations: (s.total_liquidations + 1) as u64,
                            total_realized_pnl_e6: (s.total_realized_pnl_e6 + pnl) as i64,
                            last_trade_at: now,
                            ..s
                        },
                        LiquidationOutcome {
                            pnl_e6: pnl,
                            margin_e6: p.margin_e6,
                            user_remainder_e6: rem,
                            penalty_e6: pen,
                            shortfall_e6: short,
                        },
                    ))
                },
            },
        }
    }
}

/// Liquidates a position at the reported mark price: it must belong to
/// `user` in `market_index`, be non-empty and be past its liquidation price.
/// The position is emptied and the liquidation counters move. On failure
/// nothing changes.
pub fn liquidate(
    config: &mut LedgerConfig,
    fund_program: &Address,
    position: &mut Position,
    stats: &mut UserStats,
    user: &Address,
    market_index: u8,
    mark_price_e6: u64,
    now: i64,
) -> (r: Result<LiquidationOutcome, LedgerError>)
    ensures
        match liquidation_effect(*old(config), *fund_program, *old(position), *old(stats), *user, market_index, mark_price_e6, now) {
            Ok((c2, p2, s2, o)) => r == Ok::<LiquidationOutcome, LedgerError>(o)
                && *final(config) == c2 && *final(position) == p2 && *final(stats) == s2,
            Err(e) => r == Err::<LiquidationOutcome, LedgerError>(e)
                && *final(config) == *old(config) && *final(position) == *old(position) && *final(stats) == *old(stats),
        },
        old(position).wf() ==> final(position).wf(),
{
    if !fund_program.same(&config.fund_program) {
        return Err(LedgerError::InvalidProgramId);
    }
    if !position.user.same(user) || position.market_index != market_index || position.is_empty() {
        return Err(LedgerError::PositionNotFound);
    }
    if !position.should_liquidate(mark_price_e6) {
        return Err(LedgerError::PositionNotLiquidatable);
    }
    let pnl = position.calculate_unrealized_pnl(mark_price_e6)?;
    let margin = position.margin_e6;
    let (user_remainder, penalty, shortfall) = calculate_liquidation_result(margin, pnl)?;
    if config.total_liquidations == u64::MAX || stats.total_liquidations == u64::MAX {
        return Err(LedgerError::Overflow);
    }
    let realized = checked_add(stats.total_realized_pnl_e6, pnl)?;
    position.size_e6 = 0;
    position.margin_e6 = 0;
    position.entry_price_e6 = 0;
    position.liquidation_price_e6 = 0;
    position.unrealized_pnl_e6 = 0;
    position.last_update_ts = now;
    config.total_liquidations = config.total_liquidations + 1;
    config.last_update_ts = now;
    stats.total_liquidations = stats.total_liquidations + 1;
    stats.total_realized_pnl_e6 = realized;
    stats.last_trade_at = now;
    Ok(LiquidationOutcome {
        pnl_e6: pnl,
        margin_e6: margin,
        user_remainder_e6: user_remainder,
        penalty_e6: penalty,
        shortfall_e6: shortfall,
    })
}

/// The collaborator calls a liquidation makes, in order: custody settles the
/// account and moves the penalty; the reserve books a positive penalty as
/// income; a positive shortfall is covered from the insurance pool.
pub open spec fn liquidation_calls_spec(o: LiquidationOutcome) -> Seq<CollaboratorCall> {
    let custody = seq![CollaboratorCall::LiquidatePosition {
        margin: o.margin_e6,
        user_remainder: o.user_remainder_e6,
        liquidation_penalty: o.penalty_e6,
    }];
    let income = if o.penalty_e6 > 0 {
        seq![CollaboratorCall::AddLiquidationIncome { amount_e6: o.penalty_e6 as i64 }]
    } else {
        Seq::empty()
    };
    let cover = if o.shortfall_e6 > 0 {
        seq![CollaboratorCall::CoverShortfall { shortfall_e6: o.shortfall_e6 as i64 }]
    } else {
        Seq::empty()
    };
    custody + income + cover
}

/// The collaborator calls that carry out a liquidation outcome.
pub fn liquidation_calls(o: &LiquidationOutcome) -> (r: Vec<CollaboratorCall>)
    ensures
        r@ == liquidation_calls_spec(*o),
{
    let mut calls: Vec<CollaboratorCall> = Vec::new();
    calls.push(CollaboratorCall::LiquidatePosition {
        margin: o.margin_e6,
        user_remainder: o.user_remainder_e6,
        liquidation_penalty: o.penalty_e6,
    });
    if o.penalty_e6 > 0 {
        calls.push(CollaboratorCall::AddLiquidationIncome { amount_e6: o.penalty_e6 as i64 });
    }
    if o.shortfall_e6 > 0 {
        calls.push(CollaboratorCall::CoverShortfall { shortfall_e6: o.shortfall_e6 as i64 });
    }
    assert(calls@ =~= liquidation_calls_spec(*o));
    calls
}

/// Is `p` an acceptable ADL counterparty for a bankruptcy on
/// `bankrupt_side` in `market_index`: same market, opposite side, and
/// currently profitable?
pub open spec fn adl_eligible(p: Position, market_index: u8, bankrupt_side: Side) -> bool {
    p.market_index == market_index && p.side != bankrupt_side && p.unrealized_pnl_e6 > 0
}

/// Indices of the eligible candidates, in order.
pub open spec fn adl_targets(cands: Seq<Position>, market_index: u8, bankrupt_side: Side) -> Seq<usize>
    decreases cands.len(),
{
    if cands.len() == 0 {
        Seq::empty()
    } else {
        let prefix = adl_targets(cands.drop_last(), market_index, bankrupt_side);
        if adl_eligible(cands.last(), market_index, bankrupt_side) {
            prefix.push((cands.len() - 1) as usize)
        } else {
            prefix
        }
    }
}

/// Sum of the unrealized PnL of the eligible candidates.
pub open spec fn adl_available_pnl(cands: Seq<Position>, market_index: u8, bankrupt_side: Side) -> int
    decreases cands.len(),
{
    if cands.len() == 0 {
        0
    } else {
        adl_available_pnl(cands.drop_last(), market_index, bankrupt_side) + if adl_eligible(
            cands.last(),
            market_index,
            bankrupt_side,
        ) {
            cands.last().unrealized_pnl_e6 as int
        } else {
            0
        }
    }
}

proof fn lemma_available_pnl_grows(cands: Seq<Position>, market_index: u8, bankrupt_side: Side, n: int)
    requires
        0 <= n <= cands.len(),
    ensures
        adl_available_pnl(cands.subrange(0, n), market_index, bankrupt_side)
            <= adl_available_pnl(cands, market_index, bankrupt_side),
    decreases cands.len() - n,
{
    if n < cands.len() {
        lemma_available_pnl_grows(cands, market_index, bankrupt_side, n + 1);
        assert(cands.subrange(0, n + 1).drop_last() =~= cands.subrange(0, n));
    } else {
        assert(cands.subrange(0, n) =~= cands);
    }
}

/// An ADL decision: how much must be recovered and which candidates may be
/// deleveraged.
#[derive(Clone, Debug, PartialEq, Eq)]
pub struct AdlDecision {
    pub adl_required_e6: u64,
    /// Indices into the candidate list, in order.
    pub targets: Vec<usize>,
    pub total_available_pnl_e6: i64,
    /// The reserve call that flags ADL as in progress, pausing redemptions.
    pub reserve_call: CollaboratorCall,
}

/// Flags system-wide auto-deleveraging after a shortfall the insurance pool
/// cannot absorb. Only the administrator may call it, and only while the
/// ledger is not paused. Candidates of another market, of the bankrupt side,
/// or without profit are skipped; at least one must remain. On success the
/// ADL counter moves and the decision carries the reserve call
/// `SetAdlInProgress(true)` the host must make.
/// On failure nothing changes.
pub fn trigger_adl(
    config: &mut LedgerConfig,
    caller: &Address,
    fund_program: &Address,
    market_index: u8,
    shortfall_e6: u64,
    bankrupt_side: Side,
    insurance_balance_e6: u64,
    candidates: &Vec<Position>,
    now: i64,
) -> (r: Result<AdlDecision, LedgerError>)
    ensures
        ({
            let c = *old(config);
            let targets = adl_targets(candidates@, market_index, bankrupt_side);
            let available = adl_available_pnl(candidates@, market_index, bankrupt_side);
            if *fund_program != c.fund_program {
                r == Err::<AdlDecision, LedgerError>(LedgerError::InvalidProgramId)
            } else if *caller != c.admin {
                r == Err::<AdlDecision, LedgerError>(LedgerError::InvalidAdmin)
            } else if c.is_paused {
                r == Err::<AdlDecision, LedgerError>(LedgerError::LedgerPaused)
            } else if insurance_balance_e6 >= shortfall_e6 {
                r == Err::<AdlDecision, LedgerError>(LedgerError::ADLNotRequired)
            } else if available > i64::MAX {
                r == Err::<AdlDecision, LedgerError>(LedgerError::Overflow)
            } else if targets.len() == 0 {
                r == Err::<AdlDecision, LedgerError>(LedgerError::NoOpposingPositionsForADL)
            } else if c.total_adl_count == u64::MAX {
                r == Err::<AdlDecision, LedgerError>(LedgerError::Overflow)
            } else {
                &&& r is Ok
                &&& r->Ok_0.adl_required_e6 == shortfall_e6 - insurance_balance_e6
                &&& r->Ok_0.targets@ == targets
                &&& r->Ok_0.total_available_pnl_e6 == available
                &&& r->Ok_0.reserve_call == CollaboratorCall::SetAdlInProgress { in_progress: true }
                &&& *final(config) == (LedgerConfig {
                    total_adl_count: (c.total_adl_count + 1) as u64,
                    last_update_ts: now,
                    ..c
                })
            }
        }),
        r is Err ==> *final(config) == *old(config),
{
    if !fund_program.same(&config.fund_program) {
        return Err(LedgerError::InvalidProgramId);
    }
    if !caller.same(&config.admin) {
        return Err(LedgerError::InvalidAdmin);
    }
    if config.is_paused {
        return Err(LedgerError::LedgerPaused);
    }
    if insurance_balance_e6 >= shortfall_e6 {
        return Err(LedgerError::ADLNotRequired);
    }
    let adl_required = shortfall_e6 - insurance_balance_e6;
    let mut targets: Vec<usize> = Vec::new();
    let mut total: i64 = 0;
    let mut i: usize = 0;
    while i < candidates.len()
        invariant
            i <= candidates@.len(),
            targets@ == adl_targets(candidates@.subrange(0, i as int), market_index, bankrupt_side),
            total == adl_available_pnl(candidates@.subrange(0, i as int), market_index, bankrupt_side),
            total >= 0,
            *config == *old(config),
            *fund_program == config.fund_program,
            *caller == config.admin,
            !config.is_paused,
            insurance_balance_e6 < shortfall_e6,
        decreases candidates@.len() - i,
    {
        let p = &candidates[i];
        assert(candidates@.subrange(0, i + 1).drop_last() =~= candidates@.subrange(0, i as int));
        if p.market_index == market_index && p.side != bankrupt_side && p.unrealized_pnl_e6 > 0 {
            match total.checked_add(p.unrealized_pnl_e6) {
                Some(t) => {
                    total = t;
                },
                None => {
                    proof {
                        assert(candidates@.subrange(0, i + 1).last() == *p);
                        assert(adl_available_pnl(candidates@.subrange(0, i + 1), market_index, bankrupt_side)
                            == total + p.unrealized_pnl_e6);
                        lemma_available_pnl_grows(candidates@, market_index, bankrupt_side, i + 1);
                    }
                    return Err(LedgerError::Overflow);
                },
            }
            targets.push(i);
        }
        i = i + 1;
    }
    assert(candidates@.subrange(0, candidates@.len() as int) =~= candidates@);
    if targets.len() == 0 {
        return Err(LedgerError::NoOpposingPositionsForADL);
    }
    if config.total_adl_count == u64::MAX {
        return Err(LedgerError::Overflow);
    }
    config.total_adl_count = config.total_adl_count + 1;
    config.last_update_ts = now;
    Ok(AdlDecision {
        adl_required_e6: adl_required,
        targets,
        total_available_pnl_e6: total,
        reserve_call: CollaboratorCall::SetAdlInProgress { in_progress: true },
    })
}

/// The funding a position pays (positive) or receives (negative) at
/// `rate` and `index_price`: `size * index / 1e6 * rate / 1e6`, paid by
/// longs and received by shorts for a positive rate.
pub open spec fn funding_payment(p: Position, rate: i64, index_price: u64) -> Result<i64, LedgerError> {
    let value = (p.size_e6 * index_price) / 1_000_000;
    if value > i64::MAX {
        Err(LedgerError::Overflow)
    } else {
        let pay = mul_e6_spec(value, rate as int);
        if !fits_i64(pay) {
            Err(LedgerError::Overflow)
        } else {
            match p.side {
                Side::Long => Ok(pay as i64),
                Side::Short => i64_result(-pay),
            }
        }
    }
}

/// Accrues funding on a position at an externally supplied rate and index
/// price. The payment is added to the position's lifetime funding and the
/// funding timestamp moves; no collateral moves until the next close.
/// Returns the signed payment. On failure nothing changes.
pub fn settle_funding(
    position: &mut Position,
    user: &Address,
    market_index: u8,
    funding_rate_e6: i64,
    index_price_e6: u64,
    now: i64,
) -> (r: Result<i64, LedgerError>)
    ensures
        ({
            let p = *old(position);
            if p.user != *user || p.market_index != market_index || p.size_e6 == 0 {
                r == Err::<i64, LedgerError>(LedgerError::PositionNotFound)
            } else {
                match funding_payment(p, funding_rate_e6, index_price_e6) {
                    Err(e) => r == Err::<i64, LedgerError>(e),
                    Ok(pay) => if fits_i64(p.cumulative_funding_e6 + pay) {
                        r == Ok::<i64, LedgerError>(pay) && *final(position) == (Position {
                            cumulative_funding_e6: (p.cumulative_funding_e6 + pay) as i64,
                            last_funding_ts: now,
                            last_update_ts: now,
                            ..p
                        })
                    } else {
                        r == Err::<i64, LedgerError>(LedgerError::Overflow)
                    },
                }
            }
        }),
        r is Err ==> *final(position) == *old(position),
        old(position).wf() ==> final(position).wf(),
{
    if !position.user.same(user) || position.market_index != market_index || position.is_empty() {
        return Err(LedgerError::PositionNotFound);
    }
    assert((position.size_e6 as int) * (index_price_e6 as int) <= 0xffff_ffff_ffff_ffff_ffff_ffff_ffff_ffff)
        by (nonlinear_arith)
        requires
            position.size_e6 <= 0xffff_ffff_ffff_ffff,
            index_price_e6 <= 0xffff_ffff_ffff_ffff,
    ;
    let value = (position.size_e6 as u128) * (index_price_e6 as u128) / 1_000_000u128;
    if value > i64::MAX as u128 {
        return Err(LedgerError::Overflow);
    }
    let payment = mul_e6(value as i64, funding_rate_e6)?;
    let actual = match position.side {
        Side::Long => payment,
        Side::Short => checked_sub(0, payment)?,
    };
    let cumulative = checked_add(position.cumulative_funding_e6, actual)?;
    position.cumulative_funding_e6 = cumulative;
    position.last_funding_ts = now;
    position.last_update_ts = now;
    Ok(actual)
}

} // verus!
