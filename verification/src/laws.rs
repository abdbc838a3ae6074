//! What holds of the operations taken together.

use crate::account::{Ido, IdoState, Pubkey, RemainingAccount, TokenAccount};
use crate::config::{first_tier_share, platform_fee, second_tier_share};
use crate::context_admin::{EndIdo, Initialize, StartSaleRound, StartTradeRound, WithdrawIdoUsdc};
use crate::context_user::{AddOrder, BuyAcdm, RedeemOrder, RemoveOrder};
use crate::error::IdoError;
use crate::helpers::round_time_elapsed;
use crate::instructions::{
    add_order_outcome, buy_acdm_outcome, end_ido_outcome, initialized, redeem_order_outcome,
    remove_order_outcome, start_sale_round_outcome, start_trade_round_outcome,
    withdraw_ido_usdc_outcome,
};
use crate::referral::{is_member_record_of, routing_outcome, settled_accounts, Payout};
use vstd::prelude::*;

verus! {

/// The moves that the offering's state can make.
pub open spec fn legal_transition(from: IdoState, to: IdoState) -> bool {
    ||| from == IdoState::NotStarted && to == IdoState::SaleRound
    ||| from == IdoState::SaleRound && to == IdoState::TradeRound
    ||| from == IdoState::TradeRound && to == IdoState::SaleRound
    ||| from == IdoState::TradeRound && to == IdoState::Over
}

/// Whether an operation was refused for the reason `e`.
pub open spec fn fails_with<T>(outcome: Result<T, IdoError>, e: IdoError) -> bool {
    outcome is Err && outcome->Err_0 == e
}

/// A share that was paid, or nothing.
pub open spec fn paid(share: Option<u64>) -> int {
    match share {
        Some(amount) => amount as int,
        None => 0,
    }
}

/// What an extra account holds, where it is a token account.
pub open spec fn balance_at(accounts: Seq<RemainingAccount>, i: int) -> int {
    match accounts[i] {
        RemainingAccount::Token(account) => account.amount as int,
        RemainingAccount::Member(_) => 0,
    }
}

/// Starting a sale round moves the state along the table and stamps the
/// time. From a trade round it needs the round's time to have passed. The
/// price it sets is not zero, and what it mints is the volume of the round
/// before divided by that price, rounded down. Asked for in a sale round it
/// fails with `RoundAlreadyStarted`, after the end with `IdoIsOver`, and in
/// a trade round that is too young with `CannotEndRound`.
pub proof fn law_start_sale_round(ctx: StartSaleRound, ts: u32)
    ensures
        match start_sale_round_outcome(ctx, ts) {
            Ok((after, event)) => {
                &&& legal_transition(ctx.ido.state, after.ido.state)
                &&& after.ido.state == IdoState::SaleRound
                &&& after.ido.current_state_start_ts == ts
                &&& ctx.ido.state == IdoState::TradeRound ==> round_time_elapsed(ctx.ido, ts)
                &&& after.ido.acdm_price > 0
                &&& event.acdm_price == after.ido.acdm_price
                &&& event.minted_amount == ctx.ido.usdc_traded / after.ido.acdm_price
                &&& after.ido_acdm.amount == ctx.ido_acdm.amount + event.minted_amount
                &&& after.ido.orders == ctx.ido.orders
                &&& after.ido.usdc_traded == ctx.ido.usdc_traded
            },
            Err(e) => ctx.ido_authority == ctx.ido.authority ==> {
                &&& ctx.ido.state == IdoState::SaleRound ==> e == IdoError::RoundAlreadyStarted
                &&& ctx.ido.state == IdoState::Over ==> e == IdoError::IdoIsOver
                &&& ctx.ido.state == IdoState::TradeRound && !round_time_elapsed(ctx.ido, ts) ==> e
                    == IdoError::CannotEndRound
            },
        },
{
}

/// Starting a trade round moves the state along the table, stamps the
/// time, sets the volume to zero and empties the treasury of the sale token.
/// It needs the sale round to be sold out or its time to have passed. Asked
/// for before the first sale round it fails with `NotSaleRound`, in a trade
/// round with `RoundAlreadyStarted`, after the end with `IdoIsOver`.
pub proof fn law_start_trade_round(ctx: StartTradeRound, ts: u32)
    ensures
        match start_trade_round_outcome(ctx, ts) {
            Ok((after, _)) => {
                &&& legal_transition(ctx.ido.state, after.ido.state)
                &&& after.ido.state == IdoState::TradeRound
                &&& after.ido.current_state_start_ts == ts
                &&& ctx.ido_acdm.amount == 0 || round_time_elapsed(ctx.ido, ts)
                &&& after.ido.usdc_traded == 0
                &&& after.ido_acdm.amount == 0
                &&& after.ido.orders == ctx.ido.orders
                &&& after.ido.acdm_price == ctx.ido.acdm_price
            },
            Err(e) => ctx.ido_authority == ctx.ido.authority ==> {
                &&& ctx.ido.state == IdoState::NotStarted ==> e == IdoError::NotSaleRound
                &&& ctx.ido.state == IdoState::TradeRound ==> e == IdoError::RoundAlreadyStarted
                &&& ctx.ido.state == IdoState::Over ==> e == IdoError::IdoIsOver
                &&& ctx.ido.state == IdoState::SaleRound ==> e == IdoError::CannotEndRound
                    && ctx.ido_acdm.amount != 0 && !round_time_elapsed(ctx.ido, ts)
            },
        },
{
}

/// Ending the offering moves the state along the table and stamps the
/// time; it needs a trade round whose time has passed. Asked for in any
/// other round it fails with `NotTradeRound`, after the end with
/// `IdoIsOver`.
pub proof fn law_end_ido(ctx: EndIdo, ts: u32)
    ensures
        match end_ido_outcome(ctx, ts) {
            Ok((after, _)) => {
                &&& legal_transition(ctx.ido.state, after.ido.state)
                &&& after.ido.state == IdoState::Over
                &&& after.ido.current_state_start_ts == ts
                &&& round_time_elapsed(ctx.ido, ts)
            },
            Err(e) => ctx.ido_authority == ctx.ido.authority ==> {
                &&& ctx.ido.state == IdoState::NotStarted ==> e == IdoError::NotTradeRound
                &&& ctx.ido.state == IdoState::SaleRound ==> e == IdoError::NotTradeRound
                &&& ctx.ido.state == IdoState::Over ==> e == IdoError::IdoIsOver
                &&& ctx.ido.state == IdoState::TradeRound ==> e == IdoError::CannotEndRound
                    && !round_time_elapsed(ctx.ido, ts)
            },
        },
{
}

/// Buying, listing, redeeming and withdrawing never move the state, never
/// change the price, and never lower the count of listings.
pub proof fn law_trading_keeps_state(
    buy: BuyAcdm,
    add: AddOrder,
    redeem: RedeemOrder,
    withdraw: WithdrawIdoUsdc,
    accounts: Seq<RemainingAccount>,
    id: u64,
    amount: u64,
    price: u64,
    bump: u8,
)
    ensures
        match buy_acdm_outcome(buy, accounts, amount) {
            Ok((after, _, _)) => after.ido == buy.ido && buy.ido.state == IdoState::SaleRound,
            Err(_) => true,
        },
        match add_order_outcome(add, amount, price, bump) {
            Ok((after, _)) => after.ido.state == add.ido.state && add.ido.state
                == IdoState::TradeRound && after.ido.acdm_price == add.ido.acdm_price
                && after.ido.orders == add.ido.orders + 1,
            Err(_) => true,
        },
        match redeem_order_outcome(redeem, accounts, id, amount) {
            Ok((after, _, _)) => after.ido.state == redeem.ido.state && redeem.ido.state
                == IdoState::TradeRound && after.ido.acdm_price == redeem.ido.acdm_price
                && after.ido.orders == redeem.ido.orders && after.order == redeem.order,
            Err(_) => true,
        },
        match withdraw_ido_usdc_outcome(withdraw) {
            Ok((after, _)) => after.ido == withdraw.ido,
            Err(_) => true,
        },
{
}

/// What every stored sale record satisfies: in a sale round the price is
/// not zero.
pub open spec fn priced(ido: Ido) -> bool {
    ido.state == IdoState::SaleRound ==> ido.acdm_price > 0
}

/// One step of a sale record: it stays in its state or moves along the
/// table, it stays priced, and its count of listings does not go down.
pub open spec fn sound_step(before: Ido, after: Ido) -> bool {
    &&& before.state == after.state || legal_transition(before.state, after.state)
    &&& priced(before) ==> priced(after)
    &&& after.orders >= before.orders
    &&& after.authority == before.authority
    &&& after.round_time == before.round_time
}

/// A new sale record is priced, and every operation that succeeds on a sale
/// record makes a sound step.
pub proof fn law_every_step_is_sound(
    init: Initialize,
    sale: StartSaleRound,
    trade: StartTradeRound,
    end: EndIdo,
    buy: BuyAcdm,
    add: AddOrder,
    redeem: RedeemOrder,
    withdraw: WithdrawIdoUsdc,
    accounts: Seq<RemainingAccount>,
    round_time: u32,
    ts: u32,
    id: u64,
    amount: u64,
    price: u64,
    bump: u8,
)
    ensures
        priced(initialized(init, round_time, ts, bump)),
        initialized(init, round_time, ts, bump).state == IdoState::NotStarted,
        match start_sale_round_outcome(sale, ts) {
            Ok((after, _)) => sound_step(sale.ido, after.ido) && priced(after.ido),
            Err(_) => true,
        },
        match start_trade_round_outcome(trade, ts) {
            Ok((after, _)) => sound_step(trade.ido, after.ido),
            Err(_) => true,
        },
        match end_ido_outcome(end, ts) {
            Ok((after, _)) => sound_step(end.ido, after.ido),
            Err(_) => true,
        },
        match buy_acdm_outcome(buy, accounts, amount) {
            Ok((after, _, _)) => sound_step(buy.ido, after.ido),
            Err(_) => true,
        },
        match add_order_outcome(add, amount, price, bump) {
            Ok((after, _)) => sound_step(add.ido, after.ido),
            Err(_) => true,
        },
        match redeem_order_outcome(redeem, accounts, id, amount) {
            Ok((after, _, _)) => sound_step(redeem.ido, after.ido),
            Err(_) => true,
        },
        match withdraw_ido_usdc_outcome(withdraw) {
            Ok((after, _)) => sound_step(withdraw.ido, after.ido),
            Err(_) => true,
        },
{
}

/// One call that works on the sale record, with what the caller brings
/// besides the record.
pub enum Call {
    StartSaleRound { caller: Pubkey, treasury: TokenAccount, ts: u32 },
    StartTradeRound { caller: Pubkey, treasury: TokenAccount, ts: u32 },
    EndIdo { caller: Pubkey, ts: u32 },
    BuyAcdm { buy: BuyAcdm, accounts: Seq<RemainingAccount>, amount: u64 },
    AddOrder { add: AddOrder, amount: u64, price: u64, bump: u8 },
    RedeemOrder { redeem: RedeemOrder, accounts: Seq<RemainingAccount>, id: u64, amount: u64 },
    WithdrawIdoUsdc { withdraw: WithdrawIdoUsdc },
}

/// The sale record after one call: what the operation leaves where it
/// succeeds, the record as it was where it fails.
pub open spec fn record_after(ido: Ido, call: Call) -> Ido {
    match call {
        Call::StartSaleRound { caller, treasury, ts } => match start_sale_round_outcome(
            StartSaleRound { ido, ido_authority: caller, ido_acdm: treasury },
            ts,
        ) {
            Ok((after, _)) => after.ido,
            Err(_) => ido,
        },
        Call::StartTradeRound { caller, treasury, ts } => match start_trade_round_outcome(
            StartTradeRound { ido, ido_authority: caller, ido_acdm: treasury },
            ts,
        ) {
            Ok((after, _)) => after.ido,
            Err(_) => ido,
        },
        Call::EndIdo { caller, ts } => match end_ido_outcome(
            EndIdo { ido, ido_authority: caller },
            ts,
        ) {
            Ok((after, _)) => after.ido,
            Err(_) => ido,
        },
        Call::BuyAcdm { buy, accounts, amount } => match buy_acdm_outcome(
            BuyAcdm { ido, ..buy },
            accounts,
            amount,
        ) {
            Ok((after, _, _)) => after.ido,
            Err(_) => ido,
        },
        Call::AddOrder { add, amount, price, bump } => match add_order_outcome(
            AddOrder { ido, ..add },
            amount,
            price,
            bump,
        ) {
            Ok((after, _)) => after.ido,
            Err(_) => ido,
        },
        Call::RedeemOrder { redeem, accounts, id, amount } => match redeem_order_outcome(
            RedeemOrder { ido, ..redeem },
            accounts,
            id,
            amount,
        ) {
            Ok((after, _, _)) => after.ido,
            Err(_) => ido,
        },
        Call::WithdrawIdoUsdc { withdraw } => match withdraw_ido_usdc_outcome(
            WithdrawIdoUsdc { ido, ..withdraw },
        ) {
            Ok((after, _)) => after.ido,
            Err(_) => ido,
        },
    }
}

/// The sale record after a sequence of calls, the first call first.
pub open spec fn record_after_all(ido: Ido, calls: Seq<Call>) -> Ido
    decreases calls.len(),
{
    if calls.len() == 0 {
        ido
    } else {
        record_after(record_after_all(ido, calls.drop_last()), calls.last())
    }
}

/// Whatever is called, and whether it succeeds or not, the record makes a
/// sound step: its state stays or moves along the table.
pub proof fn law_any_call_is_a_sound_step(ido: Ido, call: Call)
    ensures
        sound_step(ido, record_after(ido, call)),
        ido.state == IdoState::Over ==> record_after(ido, call).state == IdoState::Over,
{
}

/// Along every sequence of calls the state only follows the table: each
/// call is a sound step from the record that the calls before it left.
pub proof fn law_states_follow_the_table(ido: Ido, calls: Seq<Call>, i: int)
    requires
        0 <= i < calls.len(),
    ensures
        sound_step(record_after_all(ido, calls.take(i)), record_after_all(ido, calls.take(i + 1))),
        record_after_all(ido, calls.take(i + 1)) == record_after(
            record_after_all(ido, calls.take(i)),
            calls[i],
        ),
{
    let upto = calls.take(i + 1);
    assert(upto.drop_last() =~= calls.take(i));
    assert(upto.last() == calls[i]);
    law_any_call_is_a_sound_step(record_after_all(ido, calls.take(i)), calls[i]);
}

/// A sale record that starts priced stays priced along every sequence of
/// calls, and once it is over it stays over.
pub proof fn law_sequences_keep_the_record_sound(ido: Ido, calls: Seq<Call>)
    ensures
        priced(ido) ==> priced(record_after_all(ido, calls)),
        ido.state == IdoState::Over ==> record_after_all(ido, calls).state == IdoState::Over,
        record_after_all(ido, calls).orders >= ido.orders,
    decreases calls.len(),
{
    if calls.len() > 0 {
        law_sequences_keep_the_record_sound(ido, calls.drop_last());
        law_any_call_is_a_sound_step(record_after_all(ido, calls.drop_last()), calls.last());
    }
}

/// Once the offering is over, no round starts, nothing is bought, listed or
/// redeemed, and it cannot be ended again: each attempt of the authority, or
/// on a listing by its named seller, fails with `IdoIsOver`.
pub proof fn law_over_is_terminal(
    sale: StartSaleRound,
    trade: StartTradeRound,
    end: EndIdo,
    buy: BuyAcdm,
    add: AddOrder,
    redeem: RedeemOrder,
    accounts: Seq<RemainingAccount>,
    ts: u32,
    id: u64,
    amount: u64,
    price: u64,
    bump: u8,
)
    ensures
        sale.ido.state == IdoState::Over && sale.ido_authority == sale.ido.authority
            ==> fails_with(start_sale_round_outcome(sale, ts), IdoError::IdoIsOver),
        trade.ido.state == IdoState::Over && trade.ido_authority == trade.ido.authority
            ==> fails_with(start_trade_round_outcome(trade, ts), IdoError::IdoIsOver),
        end.ido.state == IdoState::Over && end.ido_authority == end.ido.authority
            ==> fails_with(end_ido_outcome(end, ts), IdoError::IdoIsOver),
        buy.ido.state == IdoState::Over ==> fails_with(buy_acdm_outcome(buy, accounts, amount), IdoError::IdoIsOver),
        add.ido.state == IdoState::Over ==> fails_with(add_order_outcome(add, amount, price, bump), IdoError::IdoIsOver),
        redeem.ido.state == IdoState::Over && redeem.seller == redeem.order.authority
            && redeem.seller_usdc.owner == redeem.order.authority ==> fails_with(redeem_order_outcome(
            redeem,
            accounts,
            id,
            amount,
        ), IdoError::IdoIsOver),
{
}

/// A listing that is removed before anyone redeems from it gives the seller
/// back exactly what was listed, and leaves nothing in the escrow: after
/// `add_order` on an empty escrow and `remove_order` on what it left, the
/// seller's balance is the one from before.
pub proof fn law_add_then_remove(ctx: AddOrder, id: u64, amount: u64, price: u64, bump: u8)
    requires
        ctx.order_acdm.amount == 0,
    ensures
        match add_order_outcome(ctx, amount, price, bump) {
            Ok((listed, event)) => {
                &&& listed.order_acdm.amount == amount
                &&& listed.seller_acdm.amount == ctx.seller_acdm.amount - amount
                &&& event.id == ctx.ido.orders
                &&& match remove_order_outcome(
                    RemoveOrder {
                        order: listed.order,
                        order_acdm: listed.order_acdm,
                        seller: listed.seller,
                        seller_acdm: listed.seller_acdm,
                    },
                    id,
                ) {
                    Ok((removed, _)) => removed.order_acdm.amount == 0 && removed.seller_acdm
                        == ctx.seller_acdm,
                    Err(_) => false,
                }
            },
            Err(_) => true,
        },
{
}

/// Removing a listing empties its escrow into the seller's account,
/// whatever was redeemed before.
pub proof fn law_remove_returns_leftover(ctx: RemoveOrder, id: u64)
    ensures
        match remove_order_outcome(ctx, id) {
            Ok((after, event)) => after.order_acdm.amount == 0 && after.seller_acdm.amount
                == ctx.seller_acdm.amount + ctx.order_acdm.amount && event.id == id,
            Err(_) => true,
        },
{
}

/// A redemption takes exactly the redeemed amount out of the escrow and
/// hands it to the buyer; the escrow's balance is the only bound, so asking
/// for more than it holds fails.
pub proof fn law_redeem_draws_escrow(
    ctx: RedeemOrder,
    accounts: Seq<RemainingAccount>,
    id: u64,
    amount: u64,
)
    ensures
        match redeem_order_outcome(ctx, accounts, id, amount) {
            Ok((after, _, _)) => amount <= ctx.order_acdm.amount && after.order_acdm.amount
                == ctx.order_acdm.amount - amount && after.buyer_acdm.amount
                == ctx.buyer_acdm.amount + amount,
            Err(_) => true,
        },
        amount > ctx.order_acdm.amount ==> redeem_order_outcome(ctx, accounts, id, amount) is Err,
{
}

/// A routing that succeeds found every account that it paid: two extra
/// accounts for one referrer, four for two, and it pays a first referrer
/// exactly where the payer has one.
pub proof fn law_routing_finds_what_it_pays(
    to_ido: u64,
    to_referer: u64,
    to_referer2: u64,
    referer: Option<Pubkey>,
    buyer: TokenAccount,
    ido: TokenAccount,
    accounts: Seq<RemainingAccount>,
)
    ensures
        match routing_outcome(to_ido, to_referer, to_referer2, referer, buyer, ido, accounts) {
            Ok(routed) => {
                &&& routed.payee1 is Some ==> accounts.len() >= 2
                &&& routed.payee2 is Some ==> accounts.len() >= 4
                &&& routed.payee1 is Some <==> referer is Some
                &&& routed.payee2 is Some ==> routed.payee1 is Some
                &&& settled_accounts(accounts, routed).len() == accounts.len()
            },
            Err(_) => true,
        },
{
}

/// Routing creates and destroys nothing: the payer gives exactly the fee
/// portion, and the referrers and the treasury receive exactly that. Each
/// referrer that exists gets its share in full on its payout account, and
/// the treasury gets the fee portion less the shares that were paid.
pub proof fn law_routing_conserves(
    to_ido: u64,
    to_referer: u64,
    to_referer2: u64,
    referer: Option<Pubkey>,
    buyer: TokenAccount,
    ido: TokenAccount,
    accounts: Seq<RemainingAccount>,
)
    ensures
        match routing_outcome(to_ido, to_referer, to_referer2, referer, buyer, ido, accounts) {
            Ok(routed) => {
                &&& paid(routed.payout.to_referer) + paid(routed.payout.to_referer2)
                    + routed.payout.to_ido == to_ido
                &&& routed.buyer.amount == buyer.amount - to_ido
                &&& routed.ido.amount == ido.amount + routed.payout.to_ido
                &&& referer is None ==> routed.payout == (Payout {
                    to_referer: None,
                    to_referer2: None,
                    to_ido,
                })
                &&& referer is Some ==> routed.payout.to_referer == Some(to_referer)
                &&& routed.payout.to_referer2 is Some ==> routed.payout.to_referer2 == Some(
                    to_referer2,
                )
                &&& match routed.payee1 {
                    Some(payee) => payee.owner == referer.unwrap() && payee.amount == balance_at(
                        accounts,
                        1,
                    ) + to_referer,
                    None => referer is None,
                }
                &&& match routed.payee2 {
                    Some(payee) => payee.amount == balance_at(accounts, 3) + to_referer2,
                    None => routed.payout.to_referer2 is None,
                }
            },
            Err(_) => true,
        },
{
}

/// The split of a redemption reconciles. The buyer pays the gross amount,
/// the listing's price times the amount redeemed. The seller receives the
/// gross less a twentieth. The twentieth goes to the treasury alone where
/// the seller has no referrer; where it has one, half of it (rounded down)
/// goes to that referrer, and the treasury receives the other half unless a
/// second referrer takes it. The volume grows by the gross.
pub proof fn law_redeem_fee_split(
    ctx: RedeemOrder,
    accounts: Seq<RemainingAccount>,
    id: u64,
    amount: u64,
)
    ensures
        match redeem_order_outcome(ctx, accounts, id, amount) {
            Ok((after, settled, _)) => {
                let gross = amount * ctx.order.price;
                let fee = gross / 20;
                &&& gross <= u64::MAX
                &&& after.ido.usdc_traded == ctx.ido.usdc_traded + gross
                &&& after.buyer_usdc.amount == ctx.buyer_usdc.amount - gross
                &&& after.seller_usdc.amount == ctx.seller_usdc.amount + (gross - fee)
                &&& match ctx.seller_member.referer {
                    None => after.ido_usdc.amount == ctx.ido_usdc.amount + fee && settled
                        == accounts,
                    Some(_) => {
                        &&& accounts.len() >= 2
                        &&& balance_at(settled, 1) == balance_at(accounts, 1) + fee / 2
                        &&& after.ido_usdc.amount == ctx.ido_usdc.amount + (fee - fee / 2)
                            || (after.ido_usdc.amount == ctx.ido_usdc.amount && accounts.len()
                            >= 4 && balance_at(settled, 3) - balance_at(accounts, 3) == fee - fee
                            / 2)
                    },
                }
            },
            Err(_) => true,
        },
{
    let gross = (amount * ctx.order.price) as u64;
    law_routing_conserves(
        platform_fee(gross),
        first_tier_share(gross),
        second_tier_share(gross),
        ctx.seller_member.referer,
        ctx.buyer_usdc,
        ctx.ido_usdc,
        accounts,
    );
}

/// The split of a purchase reconciles: the buyer pays the current price
/// times the amount bought, the referrers that exist receive a fortieth of
/// that each (the second the rounding's remainder too), and the treasury
/// receives all the rest.
pub proof fn law_buy_fee_split(ctx: BuyAcdm, accounts: Seq<RemainingAccount>, amount: u64)
    ensures
        match buy_acdm_outcome(ctx, accounts, amount) {
            Ok((after, settled, _)) => {
                let gross = amount * ctx.ido.acdm_price;
                let fee = gross / 20;
                &&& gross <= u64::MAX
                &&& after.buyer_usdc.amount == ctx.buyer_usdc.amount - gross
                &&& after.buyer_acdm.amount == ctx.buyer_acdm.amount + amount
                &&& after.ido_acdm.amount == ctx.ido_acdm.amount - amount
                &&& match ctx.buyer_member.referer {
                    None => after.ido_usdc.amount == ctx.ido_usdc.amount + gross && settled
                        == accounts,
                    Some(_) => {
                        &&& accounts.len() >= 2
                        &&& balance_at(settled, 1) == balance_at(accounts, 1) + fee / 2
                        &&& after.ido_usdc.amount == ctx.ido_usdc.amount + (gross - fee / 2)
                            || (after.ido_usdc.amount == ctx.ido_usdc.amount + (gross - fee)
                            && accounts.len() >= 4 && balance_at(settled, 3) - balance_at(
                            accounts,
                            3,
                        ) == fee - fee / 2)
                    },
                }
            },
            Err(_) => true,
        },
{
    let gross = (amount * ctx.ido.acdm_price) as u64;
    law_routing_conserves(
        gross,
        first_tier_share(gross),
        second_tier_share(gross),
        ctx.buyer_member.referer,
        ctx.buyer_usdc,
        ctx.ido_usdc,
        accounts,
    );
}

/// A redemption whose cost, or whose addition to the round's volume, does
/// not fit in `u64` fails with `Overflow`; so does a purchase whose cost does
/// not fit.
pub proof fn law_overflow_guard(
    redeem: RedeemOrder,
    buy: BuyAcdm,
    accounts: Seq<RemainingAccount>,
    id: u64,
    amount: u64,
)
    ensures
        ({
            &&& redeem.seller == redeem.order.authority
            &&& redeem.seller_usdc.owner == redeem.order.authority
            &&& redeem.ido.state == IdoState::TradeRound
            &&& amount * redeem.order.price > u64::MAX || redeem.ido.usdc_traded + amount
                * redeem.order.price > u64::MAX
        }) ==> fails_with(redeem_order_outcome(redeem, accounts, id, amount), IdoError::Overflow),
        buy.ido.state == IdoState::SaleRound && amount * buy.ido.acdm_price > u64::MAX
            ==> fails_with(buy_acdm_outcome(buy, accounts, amount), IdoError::Overflow),
{
}

/// A membership record that is not stored at the address derived from the
/// referrer's identity is refused with `RefererPda`, whatever payout account
/// comes with it, and nothing is routed.
pub proof fn law_spoofed_record_is_refused(
    to_ido: u64,
    to_referer: u64,
    to_referer2: u64,
    referer: Pubkey,
    buyer: TokenAccount,
    ido: TokenAccount,
    accounts: Seq<RemainingAccount>,
)
    ensures
        ({
            &&& accounts.len() > 0
            &&& accounts[0] is Member
            &&& !is_member_record_of(accounts[0]->Member_0, referer)
        }) ==> fails_with(
            routing_outcome(to_ido, to_referer, to_referer2, Some(referer), buyer, ido, accounts),
            IdoError::RefererPda,
        ),
{
}

/// A redemption or a purchase that presents such a record fails with
/// `RefererPda`, once the round and the amounts allow the operation.
pub proof fn law_spoofed_record_stops_payment(
    redeem: RedeemOrder,
    buy: BuyAcdm,
    accounts: Seq<RemainingAccount>,
    id: u64,
    amount: u64,
)
    ensures
        ({
            &&& accounts.len() > 0
            &&& accounts[0] is Member
            &&& redeem.seller == redeem.order.authority
            &&& redeem.seller_usdc.owner == redeem.order.authority
            &&& redeem.ido.state == IdoState::TradeRound
            &&& redeem.ido.usdc_traded + amount * redeem.order.price <= u64::MAX
            &&& redeem.seller_member.referer is Some
            &&& !is_member_record_of(accounts[0]->Member_0, redeem.seller_member.referer.unwrap())
        }) ==> fails_with(redeem_order_outcome(redeem, accounts, id, amount), IdoError::RefererPda),
        ({
            &&& accounts.len() > 0
            &&& accounts[0] is Member
            &&& buy.ido.state == IdoState::SaleRound
            &&& amount * buy.ido.acdm_price <= u64::MAX
            &&& buy.buyer_member.referer is Some
            &&& !is_member_record_of(accounts[0]->Member_0, buy.buyer_member.referer.unwrap())
        }) ==> fails_with(buy_acdm_outcome(buy, accounts, amount), IdoError::RefererPda),
{
}

} // verus!
