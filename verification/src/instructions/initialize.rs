use crate::account::{Ido, IdoState};
use crate::config::{INITIAL_ISSUE, INITIAL_PRICE};
use crate::context_admin::Initialize;
use crate::error::IdoError;
use crate::event::InitializeEvent;
use vstd::prelude::*;

verus! {

/// The sale record as `initialize` leaves it: not started, owned by the
/// caller, with the volume that sizes the first sale round, and with every
/// counter at zero.
pub open spec fn initialized(ctx: Initialize, round_time: u32, ts: u32, bump: u8) -> Ido {
    Ido {
        bump,
        authority: ctx.ido_authority,
        state: IdoState::NotStarted,
        acdm_mint: ctx.acdm_mint,
        usdc_mint: ctx.usdc_mint,
        acdm_price: 0,
        usdc_traded: (INITIAL_ISSUE * INITIAL_PRICE) as u64,
        orders: 0,
        round_time,
        current_state_start_ts: ts,
        sale_rounds_started: 0,
    }
}

/// Creates the sale record at time `ts`. Rounds will have to last
/// `round_time` seconds.
pub fn initialize(ctx: &mut Initialize, round_time: u32, ts: u32, bump: u8) -> (r: Result<
    InitializeEvent,
    IdoError,
>)
    ensures
        r == Ok::<InitializeEvent, IdoError>(InitializeEvent {  }),
        *final(ctx) == (Initialize { ido: initialized(*old(ctx), round_time, ts, bump), ..*old(ctx) }),
{
    ctx.ido = Ido {
        bump,
        authority: ctx.ido_authority,
        state: IdoState::NotStarted,
        acdm_mint: ctx.acdm_mint,
        usdc_mint: ctx.usdc_mint,
        acdm_price: 0,
        usdc_traded: INITIAL_ISSUE * INITIAL_PRICE,
        orders: 0,
        round_time,
        current_state_start_ts: ts,
        sale_rounds_started: 0,
    };
    Ok(InitializeEvent {  })
}

} // verus!
