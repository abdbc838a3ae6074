//! Gates that several operations share.

use crate::account::{Ido, IdoState, Pubkey};
use crate::error::IdoError;
use vstd::prelude::*;

verus! {

/// Whether the current round has lasted its minimum time at `ts`. A clock
/// that reads earlier than the round's start has let no time pass.
pub open spec fn round_time_elapsed(ido: Ido, ts: u32) -> bool {
    ts >= ido.current_state_start_ts && ts - ido.current_state_start_ts >= ido.round_time
}

/// Passes once the current round has lasted its minimum time.
pub fn round_time_over(ido: &Ido, ts: u32) -> (r: Result<(), IdoError>)
    ensures
        r == (if round_time_elapsed(*ido, ts) {
            Ok::<(), IdoError>(())
        } else {
            Err(IdoError::CannotEndRound)
        }),
{
    if ts < ido.current_state_start_ts || ts - ido.current_state_start_ts < ido.round_time {
        Err(IdoError::CannotEndRound)
    } else {
        Ok(())
    }
}

/// What an operation of the sale round is told in each state.
pub open spec fn sale_round_gate(state: IdoState) -> Result<(), IdoError> {
    match state {
        IdoState::NotStarted => Err(IdoError::NotSaleRound),
        IdoState::SaleRound => Ok(()),
        IdoState::TradeRound => Err(IdoError::NotSaleRound),
        IdoState::Over => Err(IdoError::IdoIsOver),
    }
}

/// What an operation of the trade round is told in each state.
pub open spec fn trade_round_gate(state: IdoState) -> Result<(), IdoError> {
    match state {
        IdoState::NotStarted => Err(IdoError::NotTradeRound),
        IdoState::SaleRound => Err(IdoError::NotTradeRound),
        IdoState::TradeRound => Ok(()),
        IdoState::Over => Err(IdoError::IdoIsOver),
    }
}

/// Passes in the sale round only.
pub fn is_sale_round(ido: &Ido) -> (r: Result<(), IdoError>)
    ensures
        r == sale_round_gate(ido.state),
        r is Ok <==> ido.state == IdoState::SaleRound,
{
    match ido.state {
        IdoState::NotStarted => Err(IdoError::NotSaleRound),
        IdoState::SaleRound => Ok(()),
        IdoState::TradeRound => Err(IdoError::NotSaleRound),
        IdoState::Over => Err(IdoError::IdoIsOver),
    }
}

/// Passes in the trade round only.
pub fn is_trade_round(ido: &Ido) -> (r: Result<(), IdoError>)
    ensures
        r == trade_round_gate(ido.state),
        r is Ok <==> ido.state == IdoState::TradeRound,
{
    match ido.state {
        IdoState::NotStarted => Err(IdoError::NotTradeRound),
        IdoState::SaleRound => Err(IdoError::NotTradeRound),
        IdoState::TradeRound => Ok(()),
        IdoState::Over => Err(IdoError::IdoIsOver),
    }
}

/// Passes when `actual` is the identity that a record names.
pub fn check_address(expected: &Pubkey, actual: &Pubkey) -> (r:
    Result<(), IdoError>)
    ensures
        r == (if *expected == *actual {
            Ok::<(), IdoError>(())
        } else {
            Err(IdoError::ConstraintAddress)
        }),
{
    if expected.same(actual) {
        Ok(())
    } else {
        Err(IdoError::ConstraintAddress)
    }
}

} // verus!
