use crate::account::{Ido, IdoState, TokenAccount};
use crate::context_admin::StartTradeRound;
use crate::error::IdoError;
use crate::event::StartTradeRoundEvent;
use crate::helpers::{check_address, round_time_elapsed, round_time_over};
use vstd::prelude::*;

verus! {

/// Whether a trade round may start at `ts`: from a sale round that is sold
/// out (`unsold` is zero) or has lasted its time.
pub open spec fn trade_start_gate(ido: Ido, unsold: u64, ts: u32) -> Result<(), IdoError> {
    match ido.state {
        IdoState::NotStarted => Err(IdoError::NotSaleRound),
        IdoState::SaleRound => if unsold == 0 || round_time_elapsed(ido, ts) {
            Ok(())
        } else {
            Err(IdoError::CannotEndRound)
        },
        IdoState::TradeRound => Err(IdoError::RoundAlreadyStarted),
        IdoState::Over => Err(IdoError::IdoIsOver),
    }
}

/// What `start_trade_round` does at time `ts`: only the authority may call
/// it, and only where `trade_start_gate` passes. The volume starts again at
/// zero and what the treasury has not sold is destroyed.
pub open spec fn start_trade_round_outcome(ctx: StartTradeRound, ts: u32) -> Result<
    (StartTradeRound, StartTradeRoundEvent),
    IdoError,
> {
    if ctx.ido_authority != ctx.ido.authority {
        Err(IdoError::ConstraintAddress)
    } else if trade_start_gate(ctx.ido, ctx.ido_acdm.amount, ts) is Err {
        Err(trade_start_gate(ctx.ido, ctx.ido_acdm.amount, ts)->Err_0)
    } else {
        Ok(
            (
                StartTradeRound {
                    ido: Ido {
                        state: IdoState::TradeRound,
                        current_state_start_ts: ts,
                        usdc_traded: 0,
                        ..ctx.ido
                    },
                    ido_acdm: TokenAccount { owner: ctx.ido_acdm.owner, amount: 0 },
                    ..ctx
                },
                StartTradeRoundEvent {  },
            ),
        )
    }
}

impl StartTradeRound {
    /// Passes where a trade round may start at `ts`.
    pub fn can_start_trade_round(&self, ts: u32) -> (r: Result<(), IdoError>)
        ensures
            r == trade_start_gate(self.ido, self.ido_acdm.amount, ts),
    {
        match self.ido.state {
            IdoState::NotStarted => Err(IdoError::NotSaleRound),
            IdoState::SaleRound => {
                if self.ido_acdm.amount == 0 {
                    return Ok(());
                }
                round_time_over(&self.ido, ts)
            },
            IdoState::TradeRound => Err(IdoError::RoundAlreadyStarted),
            IdoState::Over => Err(IdoError::IdoIsOver),
        }
    }
}

/// Starts a trade round at time `ts`.
pub fn start_trade_round(ctx: &mut StartTradeRound, ts: u32) -> (r: Result<
    StartTradeRoundEvent,
    IdoError,
>)
    ensures
        match start_trade_round_outcome(*old(ctx), ts) {
            Ok((after, event)) => r == Ok::<StartTradeRoundEvent, IdoError>(event) && *final(ctx)
                == after,
            Err(e) => r == Err::<StartTradeRoundEvent, IdoError>(e) && *final(ctx) == *old(ctx),
        },
{
    check_address(&ctx.ido_authority, &ctx.ido.authority)?;
    ctx.can_start_trade_round(ts)?;
    ctx.ido.state = IdoState::TradeRound;
    ctx.ido.current_state_start_ts = ts;
    ctx.ido.usdc_traded = 0;
    ctx.burn_acdm();
    Ok(StartTradeRoundEvent {  })
}

} // verus!
