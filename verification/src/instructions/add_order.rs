use crate::account::{transfer_outcome, Ido, Order};
use crate::context_user::AddOrder;
use crate::error::IdoError;
use crate::event::AddOrderEvent;
use crate::helpers::{is_trade_round, trade_round_gate};
use vstd::prelude::*;

verus! {

/// What `add_order` does, in the trade round only: `acdm_amount` moves from
/// the seller into the escrow, the listing records the seller and the price,
/// and takes the count of listings as its identifier, which then grows by
/// one.
pub open spec fn add_order_outcome(ctx: AddOrder, acdm_amount: u64, acdm_price: u64, bump: u8) -> Result<
    (AddOrder, AddOrderEvent),
    IdoError,
> {
    if trade_round_gate(ctx.ido.state) is Err {
        Err(trade_round_gate(ctx.ido.state)->Err_0)
    } else {
        match transfer_outcome(ctx.seller_acdm, ctx.order_acdm, acdm_amount) {
            Err(e) => Err(e),
            Ok((seller_acdm, order_acdm)) => if ctx.ido.orders == u64::MAX {
                Err(IdoError::Overflow)
            } else {
                Ok(
                    (
                        AddOrder {
                            ido: Ido { orders: (ctx.ido.orders + 1) as u64, ..ctx.ido },
                            order: Order { bump, authority: ctx.seller, price: acdm_price },
                            order_acdm,
                            seller_acdm,
                            ..ctx
                        },
                        AddOrderEvent {
                            id: ctx.ido.orders,
                            seller: ctx.seller,
                            amount: acdm_amount,
                            price: acdm_price,
                        },
                    ),
                )
            },
        }
    }
}

/// Lists `acdm_amount` tokens of the seller at `acdm_price` each.
pub fn add_order(ctx: &mut AddOrder, acdm_amount: u64, acdm_price: u64, bump: u8) -> (r: Result<
    AddOrderEvent,
    IdoError,
>)
    ensures
        match add_order_outcome(*old(ctx), acdm_amount, acdm_price, bump) {
            Ok((after, event)) => r == Ok::<AddOrderEvent, IdoError>(event) && *final(ctx) == after,
            Err(e) => r == Err::<AddOrderEvent, IdoError>(e) && *final(ctx) == *old(ctx),
        },
{
    is_trade_round(&ctx.ido)?;
    let mut work = *ctx;
    work.transfer_acdm(acdm_amount)?;
    work.order = Order { bump, authority: work.seller, price: acdm_price };
    let id = work.ido.orders;
    work.ido.orders = match id.checked_add(1) {
        Some(orders) => orders,
        None => { return Err(IdoError::Overflow); },
    };
    *ctx = work;
    Ok(AddOrderEvent { id, seller: work.seller, amount: acdm_amount, price: acdm_price })
}

} // verus!
