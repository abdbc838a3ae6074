use crate::account::{transfer_outcome, Ido, RemainingAccount};
use crate::config::{first_tier_share, platform_fee, second_tier_share, split_fee};
use crate::context_user::RedeemOrder;
use crate::error::IdoError;
use crate::event::RedeemOrderEvent;
use crate::helpers::{check_address, is_trade_round, trade_round_gate};
use crate::referral::{route_fee, routing_outcome, settled_accounts, store_payees};
use vstd::prelude::*;

verus! {

/// What `redeem_order` does, in the trade round only.
///
/// The seller and the seller's stable-asset account must be the ones that
/// the listing names. The buyer owes `acdm_amount` times the listing's
/// price, which is added to the round's volume. A twentieth of it is the
/// platform fee, routed through the seller's referrers as `routing_outcome`
/// says; the rest goes from the buyer to the seller. Then `acdm_amount`
/// tokens move from the escrow to the buyer.
pub open spec fn redeem_order_outcome(
    ctx: RedeemOrder,
    accounts: Seq<RemainingAccount>,
    id: u64,
    acdm_amount: u64,
) -> Result<(RedeemOrder, Seq<RemainingAccount>, RedeemOrderEvent), IdoError> {
    let gross = (acdm_amount * ctx.order.price) as u64;
    if ctx.seller != ctx.order.authority || ctx.seller_usdc.owner != ctx.order.authority {
        Err(IdoError::ConstraintAddress)
    } else if trade_round_gate(ctx.ido.state) is Err {
        Err(trade_round_gate(ctx.ido.state)->Err_0)
    } else if acdm_amount * ctx.order.price > u64::MAX {
        Err(IdoError::Overflow)
    } else if ctx.ido.usdc_traded + gross > u64::MAX {
        Err(IdoError::Overflow)
    } else {
        match routing_outcome(
            platform_fee(gross),
            first_tier_share(gross),
            second_tier_share(gross),
            ctx.seller_member.referer,
            ctx.buyer_usdc,
            ctx.ido_usdc,
            accounts,
        ) {
            Err(e) => Err(e),
            Ok(routed) => match transfer_outcome(
                routed.buyer,
                ctx.seller_usdc,
                (gross - platform_fee(gross)) as u64,
            ) {
                Err(e) => Err(e),
                Ok((buyer_usdc, seller_usdc)) => match transfer_outcome(
                    ctx.order_acdm,
                    ctx.buyer_acdm,
                    acdm_amount,
                ) {
                    Err(e) => Err(e),
                    Ok((order_acdm, buyer_acdm)) => Ok(
                        (
                            RedeemOrder {
                                ido: Ido {
                                    usdc_traded: (ctx.ido.usdc_traded + gross) as u64,
                                    ..ctx.ido
                                },
                                ido_usdc: routed.ido,
                                order_acdm,
                                buyer_acdm,
                                buyer_usdc,
                                seller_usdc,
                                ..ctx
                            },
                            settled_accounts(accounts, routed),
                            RedeemOrderEvent { id, buyer: ctx.buyer, amount: acdm_amount },
                        ),
                    ),
                },
            },
        }
    }
}

/// Buys `acdm_amount` tokens out of the listing `id` at the listing's price.
pub fn redeem_order(
    ctx: &mut RedeemOrder,
    remaining_accounts: &mut Vec<RemainingAccount>,
    id: u64,
    acdm_amount: u64,
) -> (r: Result<RedeemOrderEvent, IdoError>)
    ensures
        match redeem_order_outcome(*old(ctx), old(remaining_accounts)@, id, acdm_amount) {
            Ok((after, accounts, event)) => r == Ok::<RedeemOrderEvent, IdoError>(event) && *final(ctx) == after && final(remaining_accounts)@ == accounts,
            Err(e) => r == Err::<RedeemOrderEvent, IdoError>(e) && *final(ctx) == *old(ctx)
                && final(remaining_accounts)@ == old(remaining_accounts)@,
        },
{
    check_address(&ctx.seller, &ctx.order.authority)?;
    check_address(&ctx.seller_usdc.owner, &ctx.order.authority)?;
    is_trade_round(&ctx.ido)?;
    let gross = match acdm_amount.checked_mul(ctx.order.price) {
        Some(gross) => gross,
        None => { return Err(IdoError::Overflow); },
    };
    let traded = match ctx.ido.usdc_traded.checked_add(gross) {
        Some(traded) => traded,
        None => { return Err(IdoError::Overflow); },
    };
    let split = split_fee(gross);
    let routed = route_fee(
        split.fee,
        split.to_referer,
        split.to_referer2,
        ctx.seller_member.referer,
        ctx.buyer_usdc,
        ctx.ido_usdc,
        remaining_accounts.as_slice(),
    )?;
    let mut work = *ctx;
    work.ido.usdc_traded = traded;
    work.buyer_usdc = routed.buyer;
    work.ido_usdc = routed.ido;
    work.transfer_usdc_to_seller(split.rest)?;
    work.transfer_acdm_to_buyer(acdm_amount)?;
    store_payees(remaining_accounts, &routed);
    *ctx = work;
    Ok(RedeemOrderEvent { id, buyer: work.buyer, amount: acdm_amount })
}

} // verus!
