use crate::account::transfer_outcome;
use crate::context_admin::WithdrawIdoUsdc;
use crate::error::IdoError;
use crate::event::WithdrawIdoUsdcEvent;
use crate::helpers::check_address;
use vstd::prelude::*;

verus! {

/// What `withdraw_ido_usdc` does: only the authority may call it; the
/// treasury's whole balance of the stable asset moves to the destination.
pub open spec fn withdraw_ido_usdc_outcome(ctx: WithdrawIdoUsdc) -> Result<
    (WithdrawIdoUsdc, WithdrawIdoUsdcEvent),
    IdoError,
> {
    if ctx.ido_authority != ctx.ido.authority {
        Err(IdoError::ConstraintAddress)
    } else {
        match transfer_outcome(ctx.ido_usdc, ctx.to, ctx.ido_usdc.amount) {
            Err(e) => Err(e),
            Ok((from, to)) => Ok(
                (WithdrawIdoUsdc { ido_usdc: from, to, ..ctx }, WithdrawIdoUsdcEvent {  }),
            ),
        }
    }
}

/// Hands the proceeds to the authority's destination.
pub fn withdraw_ido_usdc(ctx: &mut WithdrawIdoUsdc) -> (r: Result<WithdrawIdoUsdcEvent, IdoError>)
    ensures
        match withdraw_ido_usdc_outcome(*old(ctx)) {
            Ok((after, event)) => r == Ok::<WithdrawIdoUsdcEvent, IdoError>(event) && *final(ctx)
                == after,
            Err(e) => r == Err::<WithdrawIdoUsdcEvent, IdoError>(e) && *final(ctx) == *old(ctx),
        },
{
    check_address(&ctx.ido_authority, &ctx.ido.authority)?;
    ctx.transfer()?;
    Ok(WithdrawIdoUsdcEvent {  })
}

} // verus!
