use ledger::admin::{
    add_relayer, initialize_relayers, remove_relayer, set_paused, update_admin, update_fund_program,
    update_required_signatures, update_vault_program,
};
use ledger::batch::{confirm_trade_batch, execute_trade_batch, submit_trade_batch};
use ledger::codec::{encode_call, encode_trades, read_insurance_fund_balance_from_vault, read_insurance_fund_config, targets_custody};
use ledger::error::LedgerError;
use ledger::hashing::compute_batch_hash;
use ledger::risk::{calculate_liquidation_result, liquidate, liquidation_calls, settle_funding, trigger_adl};
use ledger::settlement::{close_position, open_position, CollaboratorCall, TradeData, TRADE_KIND_CLOSE, TRADE_KIND_OPEN};
use ledger::state::{Address, LedgerConfig, Position, RelayerConfig, Side, UserStats};

fn key(n: u8) -> Address {
    Address::new([n; 32])
}

fn config() -> LedgerConfig {
    // admin 1, custody 2, reserve 3
    LedgerConfig::new(key(1), key(2), key(3), 254, 1_000)
}

fn open_trade(user: Address, side: Side, size: u64, price: u64, leverage: u8) -> TradeData {
    TradeData { user, market_index: 0, trade_type: TRADE_KIND_OPEN, side, size_e6: size, price_e6: price, leverage }
}

fn close_trade(user: Address, size: u64, price: u64) -> TradeData {
    TradeData { user, market_index: 0, trade_type: TRADE_KIND_CLOSE, side: Side::Long, size_e6: size, price_e6: price, leverage: 0 }
}

#[test]
fn open_long_then_close_in_profit() {
    let user = key(10);
    let mut cfg = config();
    let mut slot: Option<Position> = None;
    let mut stats = UserStats::new(user, 253);

    // 1 BTC long at 10x, $50,000
    let call = open_position(&mut cfg, &key(2), &mut slot, &mut stats, &open_trade(user, Side::Long, 1_000_000, 50_000_000_000, 10), 252, 2_000)
        .unwrap();
    // margin $5,000 plus fee $50 locked
    assert_eq!(call, CollaboratorCall::LockMargin { amount: 5_050_000_000 });
    let pos = slot.unwrap();
    assert_eq!(pos.margin_e6, 5_000_000_000);
    assert_eq!(pos.size_e6, 1_000_000);
    assert_eq!(pos.entry_price_e6, 50_000_000_000);
    assert_eq!(pos.liquidation_price_e6, 46_250_000_000);
    assert_eq!(pos.opened_at, 2_000);
    assert_eq!(stats.total_fees_paid_e6, 50_000_000);
    assert_eq!(cfg.total_positions_opened, 1);
    assert_eq!(cfg.total_fees_collected_e6, 50_000_000);
    assert_eq!(cfg.total_volume_e6, 50_000_000_000);

    // mark rises to $55,000
    assert_eq!(pos.calculate_unrealized_pnl(55_000_000_000), Ok(5_000_000_000));

    let mut pos = pos;
    let trades_before = stats.total_trades;
    let outcome = close_position(&mut cfg, &mut pos, &mut stats, &close_trade(user, 1_000_000, 55_000_000_000), 3_000).unwrap();
    assert_eq!(outcome.realized_pnl_e6, 5_000_000_000);
    assert_eq!(outcome.margin_released_e6, 5_000_000_000);
    assert_eq!(outcome.close_size_e6, 1_000_000);
    assert_eq!(outcome.fee_e6, 55_000_000);
    assert_eq!(pos.size_e6, 0);
    assert_eq!(pos.margin_e6, 0);
    assert_eq!(pos.entry_price_e6, 0);
    assert_eq!(pos.liquidation_price_e6, 0);
    assert!(pos.is_empty());
    assert_eq!(stats.total_trades, trades_before + 1);
    assert_eq!(stats.total_realized_pnl_e6, 5_000_000_000);
    assert_eq!(cfg.total_positions_closed, 1);
}

#[test]
fn partial_close_releases_proportional_margin() {
    let user = key(10);
    let mut cfg = config();
    let mut slot: Option<Position> = None;
    let mut stats = UserStats::new(user, 253);
    open_position(&mut cfg, &key(2), &mut slot, &mut stats, &open_trade(user, Side::Short, 4_000_000, 50_000_000_000, 5), 252, 2_000).unwrap();
    let mut pos = slot.unwrap();
    // margin = 4 * 50,000 / 5 = 40,000
    assert_eq!(pos.margin_e6, 40_000_000_000);
    let outcome = close_position(&mut cfg, &mut pos, &mut stats, &close_trade(user, 1_000_000, 48_000_000_000), 3_000).unwrap();
    // short gains 2,000 per unit on 4 units = 8,000; a quarter is realized
    assert_eq!(outcome.realized_pnl_e6, 2_000_000_000);
    assert_eq!(outcome.margin_released_e6, 10_000_000_000);
    assert_eq!(pos.size_e6, 3_000_000);
    assert_eq!(pos.margin_e6, 30_000_000_000);
    // short at 5x: 50,000 * (1 + 0.2 - 0.025)
    assert_eq!(pos.liquidation_price_e6, 58_750_000_000);
    // asking for more than is held closes what is held
    let outcome = close_position(&mut cfg, &mut pos, &mut stats, &close_trade(user, 9_000_000, 50_000_000_000), 3_100).unwrap();
    assert_eq!(outcome.close_size_e6, 3_000_000);
    assert_eq!(pos.size_e6, 0);
}

#[test]
fn open_validation_errors() {
    let user = key(10);
    let mut cfg = config();
    let mut slot: Option<Position> = None;
    let mut stats = UserStats::new(user, 253);
    let r = open_position(&mut cfg, &key(2), &mut slot, &mut stats, &open_trade(user, Side::Long, 0, 1, 1), 0, 0);
    assert_eq!(r, Err(LedgerError::InvalidTradeAmount));
    let r = open_position(&mut cfg, &key(2), &mut slot, &mut stats, &open_trade(user, Side::Long, 1, 0, 1), 0, 0);
    assert_eq!(r, Err(LedgerError::InvalidPrice));
    let r = open_position(&mut cfg, &key(2), &mut slot, &mut stats, &open_trade(user, Side::Long, 1, 1, 101), 0, 0);
    assert_eq!(r, Err(LedgerError::InvalidLeverage));
    let r = open_position(&mut cfg, &key(4), &mut slot, &mut stats, &open_trade(user, Side::Long, 1, 1, 1), 0, 0);
    assert_eq!(r, Err(LedgerError::InvalidVaultProgram));
    open_position(&mut cfg, &key(2), &mut slot, &mut stats, &open_trade(user, Side::Long, 1_000_000, 1_000_000, 1), 0, 0).unwrap();
    let r = open_position(&mut cfg, &key(2), &mut slot, &mut stats, &open_trade(user, Side::Short, 1_000_000, 1_000_000, 1), 0, 0);
    assert_eq!(r, Err(LedgerError::InvalidPositionSide));
    cfg.is_paused = true;
    let r = open_position(&mut cfg, &key(2), &mut slot, &mut stats, &open_trade(user, Side::Long, 1, 1, 1), 0, 0);
    assert_eq!(r, Err(LedgerError::LedgerPaused));
    let mut pos = slot.unwrap();
    let r = close_position(&mut cfg, &mut pos, &mut stats, &close_trade(user, 1, 1), 0);
    assert_eq!(r, Err(LedgerError::LedgerPaused));
    cfg.is_paused = false;
    let r = close_position(&mut cfg, &mut pos, &mut stats, &close_trade(key(11), 1, 1), 0);
    assert_eq!(r, Err(LedgerError::PositionNotFound));
}

fn underwater_long() -> Position {
    Position {
        user: key(10),
        market_index: 0,
        side: Side::Long,
        size_e6: 1_000_000,
        entry_price_e6: 50_000_000_000,
        margin_e6: 5_000_000_000,
        leverage: 10,
        liquidation_price_e6: 46_250_000_000,
        unrealized_pnl_e6: 0,
        last_funding_ts: 0,
        cumulative_funding_e6: 0,
        open_order_count: 0,
        opened_at: 0,
        last_update_ts: 0,
        bump: 255,
    }
}

#[test]
fn bankrupt_liquidation_requests_shortfall_cover() {
    let mut cfg = config();
    let mut pos = underwater_long();
    let mut stats = UserStats::new(key(10), 253);
    // mark $44,500: PnL = -$5,500 against $5,000 of margin
    let outcome = liquidate(&mut cfg, &key(3), &mut pos, &mut stats, &key(10), 0, 44_500_000_000, 5_000).unwrap();
    assert_eq!(outcome.pnl_e6, -5_500_000_000);
    assert_eq!(outcome.shortfall_e6, 500_000_000);
    assert_eq!(outcome.user_remainder_e6, 0);
    assert_eq!(outcome.penalty_e6, 0);
    let calls = liquidation_calls(&outcome);
    assert_eq!(
        calls,
        vec![
            CollaboratorCall::LiquidatePosition { margin: 5_000_000_000, user_remainder: 0, liquidation_penalty: 0 },
            CollaboratorCall::CoverShortfall { shortfall_e6: 500_000_000 },
        ]
    );
    assert!(pos.is_empty());
    assert_eq!(cfg.total_liquidations, 1);
    assert_eq!(stats.total_liquidations, 1);
    assert_eq!(stats.total_realized_pnl_e6, -5_500_000_000);
}

#[test]
fn solvent_liquidation_takes_penalty() {
    let mut cfg = config();
    let mut pos = underwater_long();
    let mut stats = UserStats::new(key(10), 253);
    // mark $46,000: PnL = -$4,000, equity $1,000, penalty 1% = $10
    let outcome = liquidate(&mut cfg, &key(3), &mut pos, &mut stats, &key(10), 0, 46_000_000_000, 5_000).unwrap();
    assert_eq!(outcome.penalty_e6, 10_000_000);
    assert_eq!(outcome.user_remainder_e6, 990_000_000);
    assert_eq!(outcome.shortfall_e6, 0);
    let calls = liquidation_calls(&outcome);
    assert_eq!(calls.len(), 2);
    assert_eq!(calls[1], CollaboratorCall::AddLiquidationIncome { amount_e6: 10_000_000 });
}

#[test]
fn liquidation_refusals() {
    let mut cfg = config();
    let mut stats = UserStats::new(key(10), 253);
    let mut pos = underwater_long();
    assert_eq!(liquidate(&mut cfg, &key(4), &mut pos, &mut stats, &key(10), 0, 1, 0), Err(LedgerError::InvalidProgramId));
    assert_eq!(liquidate(&mut cfg, &key(3), &mut pos, &mut stats, &key(10), 0, 47_000_000_000, 0), Err(LedgerError::PositionNotLiquidatable));
    assert_eq!(liquidate(&mut cfg, &key(3), &mut pos, &mut stats, &key(10), 1, 1, 0), Err(LedgerError::PositionNotFound));
    assert_eq!(pos, underwater_long());
    assert_eq!(calculate_liquidation_result(5_000_000_000, -5_500_000_000), Ok((0, 0, 500_000_000)));
    assert_eq!(calculate_liquidation_result(1_000_000_000, 0), Ok((990_000_000, 10_000_000, 0)));
    assert_eq!(calculate_liquidation_result(1_000, -1_000), Ok((0, 0, 0)));
}

fn candidate(market: u8, side: Side, pnl: i64) -> Position {
    let mut p = underwater_long();
    p.market_index = market;
    p.side = side;
    p.unrealized_pnl_e6 = pnl;
    p
}

#[test]
fn adl_validates_targets() {
    let mut cfg = config();
    let cands = vec![
        candidate(0, Side::Short, 300),
        candidate(1, Side::Short, 500),
        candidate(0, Side::Long, 700),
        candidate(0, Side::Short, 0),
        candidate(0, Side::Short, 200),
    ];
    let d = trigger_adl(&mut cfg, &key(1), &key(3), 0, 1_000, Side::Long, 400, &cands, 9_000).unwrap();
    assert_eq!(d.adl_required_e6, 600);
    assert_eq!(d.targets, vec![0, 4]);
    assert_eq!(d.total_available_pnl_e6, 500);
    assert_eq!(cfg.total_adl_count, 1);
    assert_eq!(cfg.last_update_ts, 9_000);

    assert_eq!(trigger_adl(&mut cfg, &key(1), &key(3), 0, 1_000, Side::Long, 1_000, &cands, 0).unwrap_err(), LedgerError::ADLNotRequired);
    assert_eq!(trigger_adl(&mut cfg, &key(5), &key(3), 0, 1_000, Side::Long, 0, &cands, 0).unwrap_err(), LedgerError::InvalidAdmin);
    assert_eq!(trigger_adl(&mut cfg, &key(1), &key(2), 0, 1_000, Side::Long, 0, &cands, 0).unwrap_err(), LedgerError::InvalidProgramId);
    assert_eq!(trigger_adl(&mut cfg, &key(1), &key(3), 2, 1_000, Side::Long, 0, &cands, 0).unwrap_err(), LedgerError::NoOpposingPositionsForADL);
    cfg.is_paused = true;
    assert_eq!(trigger_adl(&mut cfg, &key(1), &key(3), 0, 1_000, Side::Long, 0, &cands, 0).unwrap_err(), LedgerError::LedgerPaused);
    assert_eq!(cfg.total_adl_count, 1);
}

#[test]
fn funding_accrues_by_side() {
    let mut pos = underwater_long();
    // value 50,000 at a rate of 0.01% pays 5
    let paid = settle_funding(&mut pos, &key(10), 0, 100, 50_000_000_000, 7_000).unwrap();
    assert_eq!(paid, 5_000_000);
    assert_eq!(pos.cumulative_funding_e6, 5_000_000);
    assert_eq!(pos.last_funding_ts, 7_000);
    pos.side = Side::Short;
    let paid = settle_funding(&mut pos, &key(10), 0, 100, 50_000_000_000, 8_000).unwrap();
    assert_eq!(paid, -5_000_000);
    assert_eq!(pos.cumulative_funding_e6, 0);
    assert_eq!(settle_funding(&mut pos, &key(11), 0, 100, 1, 0), Err(LedgerError::PositionNotFound));
}

fn relayer_set() -> RelayerConfig {
    initialize_relayers(&key(1), vec![key(21), key(22), key(23)], 2, 250, 0).unwrap()
}

#[test]
fn batch_quorum_then_execute() {
    let relayers = relayer_set();
    let program = key(30);
    let user = key(10);
    let trades = vec![
        open_trade(user, Side::Long, 1_000_000, 50_000_000_000, 10),
        close_trade(user, 1_000_000, 55_000_000_000),
    ];
    let payload = encode_trades(&trades);
    assert_eq!(payload.len(), 4 + 2 * 52);
    let commitment = compute_batch_hash(&program, 77, &payload);

    let mut batch = submit_trade_batch(&relayers, &key(21), 77, commitment, 249, 100).unwrap();
    assert_eq!(batch.expires_at, 160);
    assert_eq!(batch.signature_count(), 1);

    let mut cfg = config();
    let mut positions: Vec<Option<Position>> = vec![None];
    let mut stats = vec![UserStats::new(user, 253)];
    let r = execute_trade_batch(&mut batch, &relayers, &mut cfg, &key(21), &program, &key(2), 77, &trades, &mut positions, &vec![252], &vec![0, 0], &mut stats, &vec![0, 0], 110);
    assert_eq!(r, Err(LedgerError::InsufficientSignatures));

    assert_eq!(confirm_trade_batch(&mut batch, &relayers, &key(21), &commitment, 105), Err(LedgerError::RelayerAlreadySigned));
    assert_eq!(confirm_trade_batch(&mut batch, &relayers, &key(29), &commitment, 105), Err(LedgerError::UnauthorizedRelayer));
    assert_eq!(confirm_trade_batch(&mut batch, &relayers, &key(22), &[0u8; 32], 105), Err(LedgerError::InvalidDataHash));
    assert_eq!(confirm_trade_batch(&mut batch, &relayers, &key(22), &commitment, 161), Err(LedgerError::TradeBatchExpired));
    confirm_trade_batch(&mut batch, &relayers, &key(22), &commitment, 105).unwrap();
    assert_eq!(batch.signature_count(), 2);

    // the payload must be the committed one
    let mut other = trades.clone();
    other[1].price_e6 = 56_000_000_000;
    let r = execute_trade_batch(&mut batch, &relayers, &mut cfg, &key(22), &program, &key(2), 77, &other, &mut positions, &vec![252], &vec![0, 0], &mut stats, &vec![0, 0], 110);
    assert_eq!(r, Err(LedgerError::InvalidDataHash));
    // and bound to this batch id
    let r = execute_trade_batch(&mut batch, &relayers, &mut cfg, &key(22), &program, &key(2), 78, &trades, &mut positions, &vec![252], &vec![0, 0], &mut stats, &vec![0, 0], 110);
    assert_eq!(r, Err(LedgerError::InvalidDataHash));
    let r = execute_trade_batch(&mut batch, &relayers, &mut cfg, &key(22), &program, &key(2), 77, &trades, &mut positions, &vec![252], &vec![0], &mut stats, &vec![0, 0], 110);
    assert_eq!(r, Err(LedgerError::InsufficientAccounts));

    let calls = execute_trade_batch(&mut batch, &relayers, &mut cfg, &key(23), &program, &key(2), 77, &trades, &mut positions, &vec![252], &vec![0, 0], &mut stats, &vec![0, 0], 110)
        .unwrap();
    assert_eq!(
        calls,
        vec![
            Some(CollaboratorCall::LockMargin { amount: 5_050_000_000 }),
            Some(CollaboratorCall::SettleClose { margin_to_release: 5_000_000_000, realized_pnl: 5_000_000_000, fee: 55_000_000 }),
        ]
    );
    assert!(batch.executed);
    assert!(positions[0].unwrap().is_empty());
    assert_eq!(stats[0].total_trades, 2);
    assert_eq!(cfg.global_sequence, 2);
    assert_eq!(cfg.total_positions_opened, 1);
    assert_eq!(cfg.total_positions_closed, 1);
    assert_eq!(cfg.last_update_ts, 110);

    let r = execute_trade_batch(&mut batch, &relayers, &mut cfg, &key(23), &program, &key(2), 77, &trades, &mut positions, &vec![252], &vec![0, 0], &mut stats, &vec![0, 0], 111);
    assert_eq!(r, Err(LedgerError::TradeBatchAlreadyExecuted));
}

#[test]
fn relayer_administration() {
    assert_eq!(initialize_relayers(&key(1), vec![], 1, 0, 0).unwrap_err(), LedgerError::InvalidAccount);
    assert_eq!(initialize_relayers(&key(1), vec![key(2), key(2)], 1, 0, 0).unwrap_err(), LedgerError::InvalidAccount);
    assert_eq!(initialize_relayers(&key(1), vec![key(2)], 2, 0, 0).unwrap_err(), LedgerError::InsufficientSignatures);
    let mut set = relayer_set();
    assert_eq!(add_relayer(&mut set, &key(9), &key(24), 5), Err(LedgerError::InvalidAdmin));
    add_relayer(&mut set, &key(1), &key(24), 5).unwrap();
    add_relayer(&mut set, &key(1), &key(24), 6).unwrap();
    assert_eq!(set.relayer_count(), 4);
    assert_eq!(set.last_update_ts, 5);
    add_relayer(&mut set, &key(1), &key(25), 7).unwrap();
    assert_eq!(add_relayer(&mut set, &key(1), &key(26), 8), Err(LedgerError::InvalidAccount));
    remove_relayer(&mut set, &key(1), &key(21), 9).unwrap();
    assert_eq!(set.authorized_relayers, vec![key(22), key(23), key(24), key(25)]);
    assert_eq!(update_required_signatures(&mut set, &key(1), 5, 10), Err(LedgerError::InsufficientSignatures));
    update_required_signatures(&mut set, &key(1), 4, 10).unwrap();
    assert_eq!(remove_relayer(&mut set, &key(1), &key(22), 11), Err(LedgerError::InsufficientSignatures));
    assert_eq!(set.relayer_count(), 4);
}

#[test]
fn configuration_administration() {
    let mut cfg = config();
    assert_eq!(set_paused(&mut cfg, &key(9), true, 1), Err(LedgerError::InvalidAdmin));
    set_paused(&mut cfg, &key(1), true, 2).unwrap();
    assert!(cfg.is_paused);
    update_vault_program(&mut cfg, &key(1), &key(40), 3).unwrap();
    update_fund_program(&mut cfg, &key(1), &key(41), 4).unwrap();
    assert_eq!(cfg.vault_program, key(40));
    assert_eq!(cfg.fund_program, key(41));
    update_admin(&mut cfg, &key(1), &key(42), 5).unwrap();
    assert_eq!(update_admin(&mut cfg, &key(1), &key(43), 6), Err(LedgerError::InvalidAdmin));
    assert_eq!(cfg.admin, key(42));
    assert_eq!(cfg.last_update_ts, 5);
}

#[test]
fn wire_encodings() {
    let t = TradeData { user: key(1), market_index: 2, trade_type: 1, side: Side::Short, size_e6: 0x0102, price_e6: 3, leverage: 9 };
    let bytes = encode_trades(&vec![t]);
    let mut expected = vec![1u8, 0, 0, 0];
    expected.extend_from_slice(&[1u8; 32]);
    expected.extend_from_slice(&[2, 1, 1, 0x02, 0x01, 0, 0, 0, 0, 0, 0, 3, 0, 0, 0, 0, 0, 0, 0, 9]);
    assert_eq!(bytes, expected);
    assert_eq!(encode_call(&CollaboratorCall::LockMargin { amount: 0x0a0b }), vec![4, 0x0b, 0x0a, 0, 0, 0, 0, 0, 0]);
    assert_eq!(encode_call(&CollaboratorCall::SetAdlInProgress { in_progress: true }), vec![20, 1]);
    assert_eq!(encode_call(&CollaboratorCall::CoverShortfall { shortfall_e6: -1 }), vec![18, 255, 255, 255, 255, 255, 255, 255, 255]);
    assert!(targets_custody(&CollaboratorCall::ReleaseMargin { amount: 1 }));
    assert!(!targets_custody(&CollaboratorCall::AddTradingFee { fee_e6: 1 }));

    let mut vault = vec![0u8; 72];
    vault[64] = 0x10;
    vault[65] = 0x27;
    assert_eq!(read_insurance_fund_balance_from_vault(&vault), Ok(10_000));
    assert_eq!(read_insurance_fund_balance_from_vault(&vault[..71]), Err(LedgerError::InvalidAccount));
    let mut record = vec![0u8; 154];
    record[8..40].copy_from_slice(&[5u8; 32]);
    record[40] = 7;
    record[65] = 0xff;
    record[66] = 0xff;
    record[67] = 0xff;
    record[68] = 0xff;
    record[69] = 0xff;
    record[70] = 0xff;
    record[71] = 0xff;
    record[72] = 0xff;
    record[105] = 1;
    let parsed = read_insurance_fund_config(&record).unwrap();
    assert_eq!(parsed.fund, key(5));
    assert_eq!(parsed.bump, 7);
    assert_eq!(parsed.adl_trigger_threshold_e6, -1);
    assert!(parsed.is_adl_in_progress);
    assert_eq!(read_insurance_fund_config(&record[..153]).unwrap_err(), LedgerError::InvalidAccount);
}

#[test]
fn batch_close_counts_requested_size() {
    let relayers = relayer_set();
    let program = key(30);
    let user = key(10);
    let trades = vec![
        open_trade(user, Side::Long, 1_000_000, 50_000_000_000, 10),
        close_trade(user, 2_000_000, 55_000_000_000),
    ];
    let commitment = compute_batch_hash(&program, 5, &encode_trades(&trades));
    let mut batch = submit_trade_batch(&relayers, &key(21), 5, commitment, 249, 100).unwrap();
    confirm_trade_batch(&mut batch, &relayers, &key(22), &commitment, 101).unwrap();
    let mut cfg = config();
    let mut positions: Vec<Option<Position>> = vec![None];
    let mut stats = vec![UserStats::new(user, 253)];
    let calls = execute_trade_batch(&mut batch, &relayers, &mut cfg, &key(21), &program, &key(2), 5, &trades, &mut positions, &vec![252], &vec![0, 0], &mut stats, &vec![0, 0], 102)
        .unwrap();
    assert_eq!(calls.len(), 2);
    // $50,000 opened plus $110,000 requested on the close
    assert_eq!(cfg.total_volume_e6, 160_000_000_000);
    assert_eq!(stats[0].total_volume_e6, 160_000_000_000);
    assert!(positions[0].unwrap().is_empty());

    // a standalone close counts the size actually closed
    let mut cfg = config();
    let mut slot: Option<Position> = None;
    let mut st = UserStats::new(user, 253);
    open_position(&mut cfg, &key(2), &mut slot, &mut st, &open_trade(user, Side::Long, 1_000_000, 50_000_000_000, 10), 252, 0).unwrap();
    let mut pos = slot.unwrap();
    close_position(&mut cfg, &mut pos, &mut st, &close_trade(user, 2_000_000, 55_000_000_000), 1).unwrap();
    assert_eq!(cfg.total_volume_e6, 105_000_000_000);
}

#[test]
fn emptied_slot_reopens_fresh() {
    let user = key(10);
    let mut cfg = config();
    let mut slot: Option<Position> = None;
    let mut stats = UserStats::new(user, 253);
    open_position(&mut cfg, &key(2), &mut slot, &mut stats, &open_trade(user, Side::Long, 1_000_000, 50_000_000_000, 10), 252, 0).unwrap();
    let mut pos = slot.unwrap();
    close_position(&mut cfg, &mut pos, &mut stats, &close_trade(user, 1_000_000, 50_000_000_000), 1).unwrap();
    let mut slot = Some(pos);
    let call = open_position(&mut cfg, &key(2), &mut slot, &mut stats, &open_trade(user, Side::Short, 2_000_000, 40_000_000_000, 5), 252, 2).unwrap();
    // 2 * 40,000 / 5 = 16,000 margin plus 0.1% of 80,000 fee
    assert_eq!(call, CollaboratorCall::LockMargin { amount: 16_080_000_000 });
    let p = slot.unwrap();
    assert_eq!(p.side, Side::Short);
    assert_eq!(p.leverage, 5);
    assert_eq!(p.size_e6, 2_000_000);
    assert_eq!(p.entry_price_e6, 40_000_000_000);
    assert_eq!(p.opened_at, 2);
    // short at 5x: 40,000 * (1 + 0.2 - 0.025)
    assert_eq!(p.liquidation_price_e6, 47_000_000_000);
}

#[test]
fn adl_decision_carries_reserve_flag() {
    let mut cfg = config();
    let cands = vec![candidate(0, Side::Short, 300)];
    let d = trigger_adl(&mut cfg, &key(1), &key(3), 0, 1_000, Side::Long, 0, &cands, 1).unwrap();
    assert_eq!(d.reserve_call, CollaboratorCall::SetAdlInProgress { in_progress: true });
}

#[test]
fn refused_batch_leaves_records_alone() {
    let relayers = relayer_set();
    let program = key(30);
    let user = key(10);
    let trades = vec![open_trade(user, Side::Long, 1_000_000, 50_000_000_000, 10)];
    let commitment = compute_batch_hash(&program, 6, &encode_trades(&trades));
    let mut batch = submit_trade_batch(&relayers, &key(21), 6, commitment, 249, 100).unwrap();
    confirm_trade_batch(&mut batch, &relayers, &key(22), &commitment, 101).unwrap();
    let mut cfg = config();
    let before = cfg;
    let mut positions: Vec<Option<Position>> = vec![None];
    let mut stats = vec![UserStats::new(user, 253)];
    let r = execute_trade_batch(&mut batch, &relayers, &mut cfg, &key(21), &program, &key(2), 6, &trades, &mut positions, &vec![252], &vec![0], &mut stats, &vec![0], 161);
    assert_eq!(r, Err(LedgerError::TradeBatchExpired));
    let r = execute_trade_batch(&mut batch, &relayers, &mut cfg, &key(21), &program, &key(2), 6, &trades, &mut positions, &vec![252], &vec![], &mut stats, &vec![], 102);
    assert_eq!(r, Err(LedgerError::InsufficientAccounts));
    assert_eq!(cfg, before);
    assert_eq!(positions, vec![None]);
    assert_eq!(stats[0], UserStats::new(user, 253));
    assert!(!batch.executed);
}
