use crate::account::{transfer_outcome, RemainingAccount};
use crate::config::{first_tier_share, second_tier_share, split_fee};
use crate::context_user::BuyAcdm;
use crate::error::IdoError;
use crate::event::BuyAcdmEvent;
use crate::helpers::{is_sale_round, sale_round_gate};
use crate::referral::{route_fee, routing_outcome, settled_accounts, store_payees};
use vstd::prelude::*;

verus! {

/// What `buy_acdm` does, in the sale round only.
///
/// The buyer owes `acdm_amount` times the current price. All of it is due to
/// the treasury but for the shares of the buyer's referrers, which are
/// routed as `routing_outcome` says. Then `acdm_amount` tokens move from the
/// treasury to the buyer.
pub open spec fn buy_acdm_outcome(ctx: BuyAcdm, accounts: Seq<RemainingAccount>, acdm_amount: u64) -> Result<
    (BuyAcdm, Seq<RemainingAccount>, BuyAcdmEvent),
    IdoError,
> {
    let gross = (acdm_amount * ctx.ido.acdm_price) as u64;
    if sale_round_gate(ctx.ido.state) is Err {
        Err(sale_round_gate(ctx.ido.state)->Err_0)
    } else if acdm_amount * ctx.ido.acdm_price > u64::MAX {
        Err(IdoError::Overflow)
    } else {
        match routing_outcome(
            gross,
            first_tier_share(gross),
            second_tier_share(gross),
            ctx.buyer_member.referer,
            ctx.buyer_usdc,
            ctx.ido_usdc,
            accounts,
        ) {
            Err(e) => Err(e),
            Ok(routed) => match transfer_outcome(ctx.ido_acdm, ctx.buyer_acdm, acdm_amount) {
                Err(e) => Err(e),
                Ok((ido_acdm, buyer_acdm)) => Ok(
                    (
                        BuyAcdm {
                            ido_acdm,
                            ido_usdc: routed.ido,
                            buyer_acdm,
                            buyer_usdc: routed.buyer,
                            ..ctx
                        },
                        settled_accounts(accounts, routed),
                        BuyAcdmEvent { buyer: ctx.buyer, amount: acdm_amount },
                    ),
                ),
            },
        }
    }
}

/// Buys `acdm_amount` tokens from the treasury at the current price.
pub fn buy_acdm(
    ctx: &mut BuyAcdm,
    remaining_accounts: &mut Vec<RemainingAccount>,
    acdm_amount: u64,
) -> (r: Result<BuyAcdmEvent, IdoError>)
    ensures
        match buy_acdm_outcome(*old(ctx), old(remaining_accounts)@, acdm_amount) {
            Ok((after, accounts, event)) => r == Ok::<BuyAcdmEvent, IdoError>(event) && *final(ctx)
                == after && final(remaining_accounts)@ == accounts,
            Err(e) => r == Err::<BuyAcdmEvent, IdoError>(e) && *final(ctx) == *old(ctx) && final(remaining_accounts)@ == old(remaining_accounts)@,
        },
{
    is_sale_round(&ctx.ido)?;
    let gross = match acdm_amount.checked_mul(ctx.ido.acdm_price) {
        Some(gross) => gross,
        None => { return Err(IdoError::Overflow); },
    };
    let split = split_fee(gross);
    let routed = route_fee(
        gross,
        split.to_referer,
        split.to_referer2,
        ctx.buyer_member.referer,
        ctx.buyer_usdc,
        ctx.ido_usdc,
        remaining_accounts.as_slice(),
    )?;
    let mut work = *ctx;
    work.buyer_usdc = routed.buyer;
    work.ido_usdc = routed.ido;
    work.transfer_acdm(acdm_amount)?;
    store_payees(remaining_accounts, &routed);
    *ctx = work;
    Ok(BuyAcdmEvent { buyer: work.buyer, amount: acdm_amount })
}

} // verus!
