//! What each operation reports when it succeeds; the host writes it to its
//! log.

use crate::account::Pubkey;
use vstd::prelude::*;

verus! {

/// The sale record was created.
#[derive(Copy, Clone, Debug, PartialEq, Eq)]
pub struct InitializeEvent {}

/// A membership was recorded.
#[derive(Copy, Clone, Debug, PartialEq, Eq)]
pub struct RegisterMemberEvent {
    pub authority: Pubkey,
}

/// A sale round began at `acdm_price`, with `minted_amount` tokens on offer.
#[derive(Copy, Clone, Debug, PartialEq, Eq)]
pub struct StartSaleRoundEvent {
    pub acdm_price: u64,
    pub minted_amount: u64,
}

/// `amount` tokens were bought from the treasury.
#[derive(Copy, Clone, Debug, PartialEq, Eq)]
pub struct BuyAcdmEvent {
    pub buyer: Pubkey,
    pub amount: u64,
}

/// A trade round began.
#[derive(Copy, Clone, Debug, PartialEq, Eq)]
pub struct StartTradeRoundEvent {}

/// The listing `id` was created.
#[derive(Copy, Clone, Debug, PartialEq, Eq)]
pub struct AddOrderEvent {
    pub id: u64,
    pub seller: Pubkey,
    pub amount: u64,
    pub price: u64,
}

/// `amount` tokens were bought out of the listing `id`.
#[derive(Copy, Clone, Debug, PartialEq, Eq)]
pub struct RedeemOrderEvent {
    pub id: u64,
    pub buyer: Pubkey,
    pub amount: u64,
}

/// The listing `id` was withdrawn.
#[derive(Copy, Clone, Debug, PartialEq, Eq)]
pub struct RemoveOrderEvent {
    pub id: u64,
}

/// The proceeds were withdrawn.
#[derive(Copy, Clone, Debug, PartialEq, Eq)]
pub struct WithdrawIdoUsdcEvent {}

/// The offering ended.
#[derive(Copy, Clone, Debug, PartialEq, Eq)]
pub struct EndIdoEvent {}

} // verus!
