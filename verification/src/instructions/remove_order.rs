use crate::account::transfer_outcome;
use crate::context_user::RemoveOrder;
use crate::error::IdoError;
use crate::event::RemoveOrderEvent;
use crate::helpers::check_address;
use vstd::prelude::*;

verus! {

/// What `remove_order` does, in any state: only the listing's seller may
/// call it; whatever the escrow still holds moves back to the seller, so
/// that the escrow is empty when it is released.
pub open spec fn remove_order_outcome(ctx: RemoveOrder, id: u64) -> Result<
    (RemoveOrder, RemoveOrderEvent),
    IdoError,
> {
    if ctx.seller != ctx.order.authority {
        Err(IdoError::ConstraintAddress)
    } else {
        match transfer_outcome(ctx.order_acdm, ctx.seller_acdm, ctx.order_acdm.amount) {
            Err(e) => Err(e),
            Ok((order_acdm, seller_acdm)) => Ok(
                (RemoveOrder { order_acdm, seller_acdm, ..ctx }, RemoveOrderEvent { id }),
            ),
        }
    }
}

/// Withdraws the listing `id`: the seller gets back what nobody redeemed,
/// and the host can then release the listing and its empty escrow.
pub fn remove_order(ctx: &mut RemoveOrder, id: u64) -> (r: Result<RemoveOrderEvent, IdoError>)
    ensures
        match remove_order_outcome(*old(ctx), id) {
            Ok((after, event)) => r == Ok::<RemoveOrderEvent, IdoError>(event) && *final(ctx)
                == after,
            Err(e) => r == Err::<RemoveOrderEvent, IdoError>(e) && *final(ctx) == *old(ctx),
        },
{
    check_address(&ctx.seller, &ctx.order.authority)?;
    let mut work = *ctx;
    work.send_leftover_to_seller()?;
    work.close_order_acdm_account()?;
    *ctx = work;
    Ok(RemoveOrderEvent { id })
}

} // verus!
