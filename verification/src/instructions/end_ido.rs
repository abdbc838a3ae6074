use crate::account::{Ido, IdoState};
use crate::context_admin::EndIdo;
use crate::error::IdoError;
use crate::event::EndIdoEvent;
use crate::helpers::{check_address, round_time_elapsed, round_time_over};
use vstd::prelude::*;

verus! {

/// Whether the offering may end at `ts`: from a trade round that has lasted
/// its time.
pub open spec fn end_gate(ido: Ido, ts: u32) -> Result<(), IdoError> {
    match ido.state {
        IdoState::NotStarted => Err(IdoError::NotTradeRound),
        IdoState::SaleRound => Err(IdoError::NotTradeRound),
        IdoState::TradeRound => if round_time_elapsed(ido, ts) {
            Ok(())
        } else {
            Err(IdoError::CannotEndRound)
        },
        IdoState::Over => Err(IdoError::IdoIsOver),
    }
}

/// What `end_ido` does at time `ts`: only the authority may call it, and
/// only where `end_gate` passes.
pub open spec fn end_ido_outcome(ctx: EndIdo, ts: u32) -> Result<(EndIdo, EndIdoEvent), IdoError> {
    if ctx.ido_authority != ctx.ido.authority {
        Err(IdoError::ConstraintAddress)
    } else if end_gate(ctx.ido, ts) is Err {
        Err(end_gate(ctx.ido, ts)->Err_0)
    } else {
        Ok(
            (
                EndIdo {
                    ido: Ido { state: IdoState::Over, current_state_start_ts: ts, ..ctx.ido },
                    ..ctx
                },
                EndIdoEvent {  },
            ),
        )
    }
}

impl EndIdo {
    /// Passes where the offering may end at `ts`.
    pub fn can_end_ido(&self, ts: u32) -> (r: Result<(), IdoError>)
        ensures
            r == end_gate(self.ido, ts),
    {
        match self.ido.state {
            IdoState::NotStarted => Err(IdoError::NotTradeRound),
            IdoState::SaleRound => Err(IdoError::NotTradeRound),
            IdoState::TradeRound => round_time_over(&self.ido, ts),
            IdoState::Over => Err(IdoError::IdoIsOver),
        }
    }
}

/// Ends the offering at time `ts`.
pub fn end_ido(ctx: &mut EndIdo, ts: u32) -> (r: Result<EndIdoEvent, IdoError>)
    ensures
        match end_ido_outcome(*old(ctx), ts) {
            Ok((after, event)) => r == Ok::<EndIdoEvent, IdoError>(event) && *final(ctx) == after,
            Err(e) => r == Err::<EndIdoEvent, IdoError>(e) && *final(ctx) == *old(ctx),
        },
{
    check_address(&ctx.ido_authority, &ctx.ido.authority)?;
    ctx.can_end_ido(ts)?;
    ctx.ido.state = IdoState::Over;
    ctx.ido.current_state_start_ts = ts;
    Ok(EndIdoEvent {  })
}

} // verus!
