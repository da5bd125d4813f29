//! Quorum batch protocol: relayers submit and confirm a commitment to a
//! trade payload; once enough distinct relayers have signed, any of them may
//! execute the batch, which applies every trade in order.

use vstd::prelude::*;
use crate::codec::{encode_trades, trades_payload};
use crate::error::LedgerError;
use crate::hashing::{batch_commitment, constant_time_compare, verify_batch_hash};
use crate::settlement::{
    close_effect, open_effect, record_in_stats, sat_add, settle_close, settle_close_call, settle_open,
    stats_after_trade, trade_volume, volume_of, CollaboratorCall, TradeData, TRADE_KIND_CLOSE,
    TRADE_KIND_OPEN,
};
use crate::state::{
    has_quorum, Address, LedgerConfig, Position, RelayerConfig, RelayerSignature, TradeBatch, UserStats,
    TRADE_BATCH_EXPIRY_SECONDS,
};

verus! {

/// Starts a batch: an authorized relayer commits to `data_hash`, signs it
/// first, and the batch expires `TRADE_BATCH_EXPIRY_SECONDS` after `now`.
pub fn submit_trade_batch(
    relayers: &RelayerConfig,
    relayer: &Address,
    batch_id: u64,
    data_hash: [u8; 32],
    bump: u8,
    now: i64,
) -> (r: Result<TradeBatch, LedgerError>)
    ensures
        !relayers.authorized_relayers@.contains(*relayer) ==> r == Err::<TradeBatch, LedgerError>(LedgerError::UnauthorizedRelayer),
        relayers.authorized_relayers@.contains(*relayer) && now + TRADE_BATCH_EXPIRY_SECONDS > i64::MAX
            ==> r == Err::<TradeBatch, LedgerError>(LedgerError::Overflow),
        relayers.authorized_relayers@.contains(*relayer) && now + TRADE_BATCH_EXPIRY_SECONDS <= i64::MAX ==> {
            &&& r is Ok
            &&& r->Ok_0.batch_id == batch_id
            &&& r->Ok_0.data_hash == data_hash
            &&& r->Ok_0.signatures@ == seq![RelayerSignature { relayer: *relayer, signed_at: now }]
            &&& !r->Ok_0.executed
            &&& r->Ok_0.created_at == now
            &&& r->Ok_0.expires_at == now + TRADE_BATCH_EXPIRY_SECONDS
            &&& r->Ok_0.creator == *relayer
            &&& r->Ok_0.bump == bump
            &&& r->Ok_0.wf()
        },
{
    if !relayers.is_authorized(relayer) {
        return Err(LedgerError::UnauthorizedRelayer);
    }
    let expires_at = match now.checked_add(TRADE_BATCH_EXPIRY_SECONDS) {
        Some(t) => t,
        None => return Err(LedgerError::Overflow),
    };
    let mut signatures: Vec<RelayerSignature> = Vec::new();
    signatures.push(RelayerSignature { relayer: *relayer, signed_at: now });
    Ok(TradeBatch {
        batch_id,
        data_hash,
        signatures,
        executed: false,
        created_at: now,
        expires_at,
        creator: *relayer,
        bump,
    })
}

/// Adds an authorized relayer's signature to a live batch whose commitment
/// matches `data_hash`. Fails with `UnauthorizedRelayer`,
/// `TradeBatchExpired`, `TradeBatchAlreadyExecuted`, `InvalidDataHash` or
/// `RelayerAlreadySigned`, in that order of checking; on failure nothing
/// changes.
pub fn confirm_trade_batch(
    batch: &mut TradeBatch,
    relayers: &RelayerConfig,
    relayer: &Address,
    data_hash: &[u8; 32],
    now: i64,
) -> (r: Result<(), LedgerError>)
    ensures
        ({
            let b = old(batch);
            if !relayers.authorized_relayers@.contains(*relayer) {
                r == Err::<(), LedgerError>(LedgerError::UnauthorizedRelayer)
            } else if now > b.expires_at {
                r == Err::<(), LedgerError>(LedgerError::TradeBatchExpired)
            } else if b.executed {
                r == Err::<(), LedgerError>(LedgerError::TradeBatchAlreadyExecuted)
            } else if b.data_hash@ != data_hash@ {
                r == Err::<(), LedgerError>(LedgerError::InvalidDataHash)
            } else if crate::state::signed_by(b.signatures@, *relayer) {
                r == Err::<(), LedgerError>(LedgerError::RelayerAlreadySigned)
            } else {
                r == Ok::<(), LedgerError>(())
                    && final(batch).signatures@ == b.signatures@.push(RelayerSignature { relayer: *relayer, signed_at: now })
            }
        }),
        r is Err ==> final(batch).signatures@ == old(batch).signatures@,
        old(batch).wf() ==> final(batch).wf(),
        final(batch).batch_id == old(batch).batch_id,
        final(batch).data_hash == old(batch).data_hash,
        final(batch).executed == old(batch).executed,
        final(batch).created_at == old(batch).created_at,
        final(batch).expires_at == old(batch).expires_at,
        final(batch).creator == old(batch).creator,
        final(batch).bump == old(batch).bump,
{
    if !relayers.is_authorized(relayer) {
        return Err(LedgerError::UnauthorizedRelayer);
    }
    if batch.is_expired(now) {
        return Err(LedgerError::TradeBatchExpired);
    }
    if batch.executed {
        return Err(LedgerError::TradeBatchAlreadyExecuted);
    }
    if !constant_time_compare(&batch.data_hash, data_hash) {
        return Err(LedgerError::InvalidDataHash);
    }
    batch.add_signature(*relayer, now)
}

/// The totals with the sequence counter advanced once, saturating.
pub open spec fn advance_sequence(c: LedgerConfig) -> LedgerConfig {
    LedgerConfig {
        global_sequence: if c.global_sequence == u64::MAX {
            u64::MAX
        } else {
            (c.global_sequence + 1) as u64
        },
        ..c
    }
}

/// One trade of an executing batch: the sequence counter advances, then an
/// open, a close, or (for any other kind) only the volume and statistics
/// are applied. Position `pslot` and statistics `sslot` are the trade's.
/// Every trade of a batch adds the volume of its requested size, so a close
/// larger than the position counts the size asked for, not the size closed.
pub open spec fn batch_step(
    c: LedgerConfig,
    ps: Seq<Option<Position>>,
    ss: Seq<UserStats>,
    trade: TradeData,
    pslot: int,
    sslot: int,
    bump: u8,
    now: i64,
) -> Result<(LedgerConfig, Seq<Option<Position>>, Seq<UserStats>, Option<CollaboratorCall>), LedgerError> {
    let c0 = advance_sequence(c);
    if trade.trade_type == TRADE_KIND_OPEN {
        match open_effect(c0, ps[pslot], ss[sslot], trade, bump, now) {
            Ok((c2, p2, s2, lock)) => Ok((
                c2,
                ps.update(pslot, Some(p2)),
                ss.update(sslot, s2),
                Some(CollaboratorCall::LockMargin { amount: lock }),
            )),
            Err(e) => Err(e),
        }
    } else if trade.trade_type == TRADE_KIND_CLOSE {
        match ps[pslot] {
            None => Err(LedgerError::PositionNotFound),
            Some(p) => match close_effect(c0, p, ss[sslot], trade, true, now) {
                Ok((c2, p2, s2, o)) => Ok((
                    c2,
                    ps.update(pslot, Some(p2)),
                    ss.update(sslot, s2),
                    Some(settle_close_call(o)),
                )),
                Err(e) => Err(e),
            },
        }
    } else {
        let volume = trade_volume(trade.size_e6, trade.price_e6);
        match stats_after_trade(ss[sslot], volume, 0, 0, now) {
            Ok(s2) => Ok((
                LedgerConfig { total_volume_e6: sat_add(c0.total_volume_e6, volume), ..c0 },
                ps,
                ss.update(sslot, s2),
                None,
            )),
            Err(e) => Err(e),
        }
    }
}

/// The first `n` trades of a batch applied in order, with the custody call
/// each one needs.
pub open spec fn batch_run(
    c: LedgerConfig,
    ps: Seq<Option<Position>>,
    ss: Seq<UserStats>,
    trades: Seq<TradeData>,
    pslots: Seq<usize>,
    sslots: Seq<usize>,
    bumps: Seq<u8>,
    now: i64,
    n: nat,
) -> Result<(LedgerConfig, Seq<Option<Position>>, Seq<UserStats>, Seq<Option<CollaboratorCall>>), LedgerError>
    decreases n,
{
    if n == 0 {
        Ok((c, ps, ss, Seq::empty()))
    } else {
        match batch_run(c, ps, ss, trades, pslots, sslots, bumps, now, (n - 1) as nat) {
            Err(e) => Err(e),
            Ok((c1, p1, s1, calls)) => {
                let k = n - 1;
                match batch_step(c1, p1, s1, trades[k], pslots[k] as int, sslots[k] as int, bumps[pslots[k] as int], now) {
                    Err(e) => Err(e),
                    Ok((c2, p2, s2, call)) => Ok((c2, p2, s2, calls.push(call))),
                }
            },
        }
    }
}

/// Once a prefix of the batch fails, every longer prefix fails the same way.
proof fn lemma_batch_failure_persists(
    c: LedgerConfig,
    ps: Seq<Option<Position>>,
    ss: Seq<UserStats>,
    trades: Seq<TradeData>,
    pslots: Seq<usize>,
    sslots: Seq<usize>,
    bumps: Seq<u8>,
    now: i64,
    k: nat,
    n: nat,
)
    requires
        k <= n,
        batch_run(c, ps, ss, trades, pslots, sslots, bumps, now, k) is Err,
    ensures
        batch_run(c, ps, ss, trades, pslots, sslots, bumps, now, n)
            == batch_run(c, ps, ss, trades, pslots, sslots, bumps, now, k),
    decreases n - k,
{
    if k < n {
        lemma_batch_failure_persists(c, ps, ss, trades, pslots, sslots, bumps, now, k, (n - 1) as nat);
    }
}

/// Every trade has a position slot and a statistics slot, each in range.
pub open spec fn slots_cover(
    n: int,
    pslots: Seq<usize>,
    sslots: Seq<usize>,
    n_positions: int,
    n_bumps: int,
    n_stats: int,
) -> bool {
    &&& pslots.len() >= n
    &&& sslots.len() >= n
    &&& n_bumps >= n_positions
    &&& forall|i: int| 0 <= i < n ==> #[trigger] pslots[i] < n_positions && sslots[i] < n_stats
}

fn check_slots(
    n: usize,
    pslots: &Vec<usize>,
    sslots: &Vec<usize>,
    n_positions: usize,
    n_bumps: usize,
    n_stats: usize,
) -> (r: bool)
    ensures
        r == slots_cover(n as int, pslots@, sslots@, n_positions as int, n_bumps as int, n_stats as int),
{
    if pslots.len() < n || sslots.len() < n || n_bumps < n_positions {
        return false;
    }
    let mut i: usize = 0;
    while i < n
        invariant
            i <= n,
            pslots@.len() >= n,
            sslots@.len() >= n,
            forall|j: int| 0 <= j < i ==> #[trigger] pslots@[j] < n_positions && sslots@[j] < n_stats,
        decreases n - i,
    {
        if pslots[i] >= n_positions || sslots[i] >= n_stats {
            return false;
        }
        i = i + 1;
    }
    true
}

/// Executes a batch once its quorum is met. In order of checking:
/// the caller must be an authorized relayer (`UnauthorizedRelayer`); the
/// batch must be live (`TradeBatchExpired`) and not yet executed
/// (`TradeBatchAlreadyExecuted`); its signatures must reach the threshold
/// (`InsufficientSignatures`); the payload must fit its length prefix
/// (`InvalidInstructionData`) and its domain-separated hash must equal the
/// commitment (`InvalidDataHash`); the ledger must not be paused
/// (`LedgerPaused`); `vault_program` must be the configured custody service
/// (`InvalidVaultProgram`); and every trade must have its records
/// (`InsufficientAccounts`). Then every trade is applied in order; trade
/// `i` uses position slot `position_slots[i]` and statistics slot
/// `stats_slots[i]`. The result lists, per trade, the custody call to make.
/// The batch is marked executed only when every trade succeeded; a failure
/// inside the loop leaves the records partly updated, and the host discards
/// them with the rest of the operation.
pub fn execute_trade_batch(
    batch: &mut TradeBatch,
    relayers: &RelayerConfig,
    config: &mut LedgerConfig,
    relayer: &Address,
    program_id: &Address,
    vault_program: &Address,
    batch_id: u64,
    trades: &Vec<TradeData>,
    positions: &mut Vec<Option<Position>>,
    position_bumps: &Vec<u8>,
    position_slots: &Vec<usize>,
    stats: &mut Vec<UserStats>,
    stats_slots: &Vec<usize>,
    now: i64,
) -> (r: Result<Vec<Option<CollaboratorCall>>, LedgerError>)
    ensures
        ({
            let b = old(batch);
            let c = *old(config);
            if !relayers.authorized_relayers@.contains(*relayer) {
                r == Err::<Vec<Option<CollaboratorCall>>, LedgerError>(LedgerError::UnauthorizedRelayer)
            } else if now > b.expires_at {
                r == Err::<Vec<Option<CollaboratorCall>>, LedgerError>(LedgerError::TradeBatchExpired)
            } else if b.executed {
                r == Err::<Vec<Option<CollaboratorCall>>, LedgerError>(LedgerError::TradeBatchAlreadyExecuted)
            } else if !has_quorum(relayers.required_signatures, b.signatures@.len() as u8) {
                r == Err::<Vec<Option<CollaboratorCall>>, LedgerError>(LedgerError::InsufficientSignatures)
            } else if trades@.len() > u32::MAX {
                r == Err::<Vec<Option<CollaboratorCall>>, LedgerError>(LedgerError::InvalidInstructionData)
            } else if batch_commitment(program_id.bytes@, batch_id, trades_payload(trades@)) != b.data_hash@ {
                r == Err::<Vec<Option<CollaboratorCall>>, LedgerError>(LedgerError::InvalidDataHash)
            } else if c.is_paused {
                r == Err::<Vec<Option<CollaboratorCall>>, LedgerError>(LedgerError::LedgerPaused)
            } else if *vault_program != c.vault_program {
                r == Err::<Vec<Option<CollaboratorCall>>, LedgerError>(LedgerError::InvalidVaultProgram)
            } else if !slots_cover(
                trades@.len() as int,
                position_slots@,
                stats_slots@,
                old(positions)@.len() as int,
                position_bumps@.len() as int,
                old(stats)@.len() as int,
            ) {
                r == Err::<Vec<Option<CollaboratorCall>>, LedgerError>(LedgerError::InsufficientAccounts)
            } else {
                match batch_run(
                    c,
                    old(positions)@,
                    old(stats)@,
                    trades@,
                    position_slots@,
                    stats_slots@,
                    position_bumps@,
                    now,
                    trades@.len(),
                ) {
                    Ok((c2, p2, s2, calls)) => {
                        &&& r is Ok
                        &&& r->Ok_0@ == calls
                        &&& *final(config) == (LedgerConfig { last_update_ts: now, ..c2 })
                        &&& final(positions)@ == p2
                        &&& final(stats)@ == s2
                        &&& final(batch).executed
                    },
                    Err(e) => r == Err::<Vec<Option<CollaboratorCall>>, LedgerError>(e),
                }
            }
        }),
        !(relayers.authorized_relayers@.contains(*relayer)
            && now <= old(batch).expires_at
            && !old(batch).executed
            && has_quorum(relayers.required_signatures, old(batch).signatures@.len() as u8)
            && trades@.len() <= u32::MAX
            && batch_commitment(program_id.bytes@, batch_id, trades_payload(trades@)) == old(batch).data_hash@
            && !old(config).is_paused
            && *vault_program == old(config).vault_program
            && slots_cover(
                trades@.len() as int,
                position_slots@,
                stats_slots@,
                old(positions)@.len() as int,
                position_bumps@.len() as int,
                old(stats)@.len() as int,
            )) ==> *final(config) == *old(config) && final(positions)@ == old(positions)@
                && final(stats)@ == old(stats)@,
        r is Err ==> final(batch).executed == old(batch).executed,
        final(batch).signatures@ == old(batch).signatures@,
        final(batch).batch_id == old(batch).batch_id,
        final(batch).data_hash == old(batch).data_hash,
        final(batch).created_at == old(batch).created_at,
        final(batch).expires_at == old(batch).expires_at,
        final(batch).creator == old(batch).creator,
        final(batch).bump == old(batch).bump,
{
    if !relayers.is_authorized(relayer) {
        return Err(LedgerError::UnauthorizedRelayer);
    }
    if batch.is_expired(now) {
        return Err(LedgerError::TradeBatchExpired);
    }
    if batch.executed {
        return Err(LedgerError::TradeBatchAlreadyExecuted);
    }
    if !relayers.has_enough_signatures(batch.signature_count()) {
        return Err(LedgerError::InsufficientSignatures);
    }
    if trades.len() > u32::MAX as usize {
        return Err(LedgerError::InvalidInstructionData);
    }
    let payload = encode_trades(trades);
    if !verify_batch_hash(program_id, batch_id, payload.as_slice(), &batch.data_hash) {
        return Err(LedgerError::InvalidDataHash);
    }
    if config.is_paused {
        return Err(LedgerError::LedgerPaused);
    }
    if !vault_program.same(&config.vault_program) {
        return Err(LedgerError::InvalidVaultProgram);
    }
    if !check_slots(trades.len(), position_slots, stats_slots, positions.len(), position_bumps.len(), stats.len()) {
        return Err(LedgerError::InsufficientAccounts);
    }
    let ghost c_start = *config;
    let ghost ps_start = positions@;
    let ghost ss_start = stats@;
    let mut calls: Vec<Option<CollaboratorCall>> = Vec::new();
    let mut i: usize = 0;
    while i < trades.len()
        invariant
            i <= trades@.len(),
            positions@.len() == ps_start.len(),
            stats@.len() == ss_start.len(),
            slots_cover(
                trades@.len() as int,
                position_slots@,
                stats_slots@,
                ps_start.len() as int,
                position_bumps@.len() as int,
                ss_start.len() as int,
            ),
            batch_run(c_start, ps_start, ss_start, trades@, position_slots@, stats_slots@, position_bumps@, now, i as nat)
                == Ok::<(LedgerConfig, Seq<Option<Position>>, Seq<UserStats>, Seq<Option<CollaboratorCall>>), LedgerError>(
                (*config, positions@, stats@, calls@)),
            c_start == *old(config),
            ps_start == old(positions)@,
            ss_start == old(stats)@,
            relayers.authorized_relayers@.contains(*relayer),
            now <= old(batch).expires_at,
            !old(batch).executed,
            has_quorum(relayers.required_signatures, old(batch).signatures@.len() as u8),
            trades@.len() <= u32::MAX,
            batch_commitment(program_id.bytes@, batch_id, trades_payload(trades@)) == old(batch).data_hash@,
            !c_start.is_paused,
            *vault_program == c_start.vault_program,
            batch.signatures@ == old(batch).signatures@,
            batch.executed == old(batch).executed,
            batch.batch_id == old(batch).batch_id,
            batch.data_hash == old(batch).data_hash,
            batch.created_at == old(batch).created_at,
            batch.expires_at == old(batch).expires_at,
            batch.creator == old(batch).creator,
            batch.bump == old(batch).bump,
        decreases trades@.len() - i,
    {
        let ps = position_slots[i];
        let ss = stats_slots[i];
        assert(ps < positions@.len() && ss < stats@.len());
        let trade = trades[i];
        config.next_sequence();
        if trade.trade_type == TRADE_KIND_OPEN {
            let mut slot = positions[ps];
            let mut st = stats[ss];
            let res = settle_open(config, &mut slot, &mut st, &trade, position_bumps[ps], now);
            let call = match res {
                Ok(call) => call,
                Err(e) => {
                    proof {
                        lemma_batch_failure_persists(c_start, ps_start, ss_start, trades@, position_slots@,
                            stats_slots@, position_bumps@, now, (i + 1) as nat, trades@.len());
                    }
                    return Err(e);
                },
            };
            positions.set(ps, slot);
            stats.set(ss, st);
            calls.push(Some(call));
        } else if trade.trade_type == TRADE_KIND_CLOSE {
            match positions[ps] {
                None => {
                    proof {
                        lemma_batch_failure_persists(c_start, ps_start, ss_start, trades@, position_slots@,
                            stats_slots@, position_bumps@, now, (i + 1) as nat, trades@.len());
                    }
                    return Err(LedgerError::PositionNotFound);
                },
                Some(p) => {
                    let mut pos = p;
                    let mut st = stats[ss];
                    let res = settle_close(config, &mut pos, &mut st, &trade, true, now);
                    let outcome = match res {
                        Ok(o) => o,
                        Err(e) => {
                            proof {
                                lemma_batch_failure_persists(c_start, ps_start, ss_start, trades@, position_slots@,
                                    stats_slots@, position_bumps@, now, (i + 1) as nat, trades@.len());
                            }
                            return Err(e);
                        },
                    };
                    positions.set(ps, Some(pos));
                    stats.set(ss, st);
                    calls.push(
                        Some(
                            CollaboratorCall::SettleClose {
                                margin_to_release: outcome.margin_released_e6,
                                realized_pnl: outcome.realized_pnl_e6,
                                fee: outcome.fee_e6,
                            },
                        ),
                    );
                },
            }
        } else {
            let volume = volume_of(trade.size_e6, trade.price_e6);
            let mut st = stats[ss];
            let res = record_in_stats(&mut st, volume, 0, 0, now);
            if let Err(e) = res {
                proof {
                    lemma_batch_failure_persists(c_start, ps_start, ss_start, trades@, position_slots@,
                        stats_slots@, position_bumps@, now, (i + 1) as nat, trades@.len());
                }
                return Err(e);
            }
            config.total_volume_e6 = config.total_volume_e6.saturating_add(volume);
            stats.set(ss, st);
            calls.push(None);
        }
        i = i + 1;
    }
    config.last_update_ts = now;
    batch.executed = true;
    Ok(calls)
}

} // verus!
