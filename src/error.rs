//! Error taxonomy of the ledger.

use vstd::prelude::*;

verus! {

/// Every failure the ledger can report. Hosts report an error by its
/// position in this list, so the order is part of the wire format.
#[derive(Clone, Copy, Debug, PartialEq, Eq, Structural)]
pub enum LedgerError {
    InvalidInstructionData,
    InvalidAccount,
    AccountNotWritable,
    MissingRequiredSignature,
    Overflow,
    InvalidProgramId,
    UnauthorizedRelayer,
    InsufficientSignatures,
    DuplicateSignature,
    TradeBatchExpired,
    TradeBatchAlreadyExecuted,
    InvalidDataHash,
    RelayerAlreadySigned,
    PositionNotFound,
    PositionAlreadyExists,
    InvalidPositionSide,
    PositionHasOpenOrders,
    InvalidPositionSize,
    PositionSizeExceedsMax,
    InvalidTradeAmount,
    InvalidPrice,
    InvalidLeverage,
    LeverageExceedsMax,
    InsufficientMargin,
    InvalidMarketIndex,
    MarketNotActive,
    PositionNotLiquidatable,
    InvalidLiquidationPrice,
    LiquidationInProgress,
    ADLNotTriggered,
    NoOpposingPositionsForADL,
    ADLNotRequired,
    InvalidADLTarget,
    ADLInProgress,
    FundingNotDue,
    InvalidFundingRate,
    CPICallFailed,
    InvalidVaultProgram,
    InvalidAdmin,
    LedgerPaused,
    AlreadyInitialized,
    InsufficientAccounts,
}

} // verus!
