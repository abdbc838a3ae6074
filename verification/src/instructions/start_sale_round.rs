use crate::account::{Ido, IdoState, TokenAccount};
use crate::config::{checked_sale_price, next_sale_price, INITIAL_PRICE};
use crate::context_admin::StartSaleRound;
use crate::error::IdoError;
use crate::event::StartSaleRoundEvent;
use crate::helpers::{check_address, round_time_elapsed, round_time_over};
use vstd::prelude::*;

verus! {

/// Whether a sale round may start at `ts`: from the start, or from a trade
/// round that has lasted its time.
pub open spec fn sale_start_gate(ido: Ido, ts: u32) -> Result<(), IdoError> {
    match ido.state {
        IdoState::NotStarted => Ok(()),
        IdoState::SaleRound => Err(IdoError::RoundAlreadyStarted),
        IdoState::TradeRound => if round_time_elapsed(ido, ts) {
            Ok(())
        } else {
            Err(IdoError::CannotEndRound)
        },
        IdoState::Over => Err(IdoError::IdoIsOver),
    }
}

/// Price of the sale round that starts next: the initial price for the
/// first one, then the formula on the price before.
pub open spec fn sale_round_price(ido: Ido) -> int {
    if ido.sale_rounds_started == 0 {
        INITIAL_PRICE as int
    } else {
        next_sale_price(ido.acdm_price as int)
    }
}

/// What `start_sale_round` does at time `ts`.
///
/// Only the authority may call it, and only where `sale_start_gate` passes.
/// The new price is `sale_round_price`; the treasury is minted the volume of
/// the round before divided by the new price, rounded down. The operation
/// fails with `Overflow` where the price, the count of sale rounds or the
/// treasury's balance would leave its range.
pub open spec fn start_sale_round_outcome(ctx: StartSaleRound, ts: u32) -> Result<
    (StartSaleRound, StartSaleRoundEvent),
    IdoError,
> {
    let price = sale_round_price(ctx.ido);
    let minted = ctx.ido.usdc_traded as int / price;
    if ctx.ido_authority != ctx.ido.authority {
        Err(IdoError::ConstraintAddress)
    } else if sale_start_gate(ctx.ido, ts) is Err {
        Err(sale_start_gate(ctx.ido, ts)->Err_0)
    } else if ctx.ido.sale_rounds_started != 0 && ctx.ido.acdm_price * 103 > u64::MAX {
        Err(IdoError::Overflow)
    } else if ctx.ido.sale_rounds_started == u8::MAX {
        Err(IdoError::Overflow)
    } else if ctx.ido_acdm.amount + minted > u64::MAX {
        Err(IdoError::Overflow)
    } else {
        Ok(
            (
                StartSaleRound {
                    ido: Ido {
                        state: IdoState::SaleRound,
                        current_state_start_ts: ts,
                        acdm_price: price as u64,
                        sale_rounds_started: (ctx.ido.sale_rounds_started + 1) as u8,
                        ..ctx.ido
                    },
                    ido_acdm: TokenAccount {
                        owner: ctx.ido_acdm.owner,
                        amount: (ctx.ido_acdm.amount + minted) as u64,
                    },
                    ..ctx
                },
                StartSaleRoundEvent { acdm_price: price as u64, minted_amount: minted as u64 },
            ),
        )
    }
}

impl StartSaleRound {
    /// Passes where a sale round may start at `ts`.
    pub fn can_start_sale_round(&self, ts: u32) -> (r: Result<(), IdoError>)
        ensures
            r == sale_start_gate(self.ido, ts),
    {
        match self.ido.state {
            IdoState::NotStarted => Ok(()),
            IdoState::SaleRound => Err(IdoError::RoundAlreadyStarted),
            IdoState::TradeRound => round_time_over(&self.ido, ts),
            IdoState::Over => Err(IdoError::IdoIsOver),
        }
    }
}

/// Starts a sale round at time `ts`: sets the price and mints what the
/// round offers.
pub fn start_sale_round(ctx: &mut StartSaleRound, ts: u32) -> (r: Result<
    StartSaleRoundEvent,
    IdoError,
>)
    ensures
        match start_sale_round_outcome(*old(ctx), ts) {
            Ok((after, event)) => r == Ok::<StartSaleRoundEvent, IdoError>(event) && *final(ctx)
                == after,
            Err(e) => r == Err::<StartSaleRoundEvent, IdoError>(e) && *final(ctx) == *old(ctx),
        },
{
    check_address(&ctx.ido_authority, &ctx.ido.authority)?;
    ctx.can_start_sale_round(ts)?;
    let price = if ctx.ido.sale_rounds_started == 0 {
        INITIAL_PRICE
    } else {
        match checked_sale_price(ctx.ido.acdm_price) {
            Some(price) => price,
            None => { return Err(IdoError::Overflow); },
        }
    };
    let rounds = match ctx.ido.sale_rounds_started.checked_add(1) {
        Some(rounds) => rounds,
        None => { return Err(IdoError::Overflow); },
    };
    let amount_to_mint = ctx.ido.usdc_traded / price;
    let mut work = *ctx;
    work.ido.state = IdoState::SaleRound;
    work.ido.current_state_start_ts = ts;
    work.ido.acdm_price = price;
    work.ido.sale_rounds_started = rounds;
    work.mint_acdm(amount_to_mint)?;
    *ctx = work;
    Ok(StartSaleRoundEvent { acdm_price: price, minted_amount: amount_to_mint })
}

} // verus!
