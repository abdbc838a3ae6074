//! What the operations of buyers, sellers and members work on.

use crate::account::{transfer, transfer_outcome, Ido, Member, Order, Pubkey, TokenAccount};
use crate::error::IdoError;
use vstd::prelude::*;

verus! {

/// What `register_member` works on.
#[derive(Copy, Clone, Debug, PartialEq, Eq)]
pub struct RegisterMember {
    /// The membership record to fill.
    pub member: Member,
    /// The caller.
    pub authority: Pubkey,
}

/// What `buy_acdm` works on.
#[derive(Copy, Clone, Debug, PartialEq, Eq)]
pub struct BuyAcdm {
    pub ido: Ido,
    /// The treasury's balance of the sale token.
    pub ido_acdm: TokenAccount,
    /// The treasury's balance of the stable asset.
    pub ido_usdc: TokenAccount,
    pub buyer: Pubkey,
    pub buyer_member: Member,
    pub buyer_acdm: TokenAccount,
    pub buyer_usdc: TokenAccount,
}

impl BuyAcdm {
    /// Moves `amount` of the sale token from the treasury to the buyer.
    pub fn transfer_acdm(&mut self, amount: u64) -> (r: Result<(), IdoError>)
        ensures
            match transfer_outcome(old(self).ido_acdm, old(self).buyer_acdm, amount) {
                Ok((from, to)) => r is Ok && *final(self) == (BuyAcdm {
                    ido_acdm: from,
                    buyer_acdm: to,
                    ..*old(self)
                }),
                Err(e) => r == Err::<(), IdoError>(e) && *final(self) == *old(self),
            },
    {
        let mut from = self.ido_acdm;
        let mut to = self.buyer_acdm;
        transfer(&mut from, &mut to, amount)?;
        self.ido_acdm = from;
        self.buyer_acdm = to;
        Ok(())
    }
}

/// What `add_order` works on.
#[derive(Copy, Clone, Debug, PartialEq, Eq)]
pub struct AddOrder {
    pub ido: Ido,
    /// The listing to fill.
    pub order: Order,
    /// The listing's escrow.
    pub order_acdm: TokenAccount,
    pub seller: Pubkey,
    pub seller_acdm: TokenAccount,
}

impl AddOrder {
    /// Moves `amount` of the sale token from the seller into the escrow.
    pub fn transfer_acdm(&mut self, amount: u64) -> (r: Result<(), IdoError>)
        ensures
            match transfer_outcome(old(self).seller_acdm, old(self).order_acdm, amount) {
                Ok((from, to)) => r is Ok && *final(self) == (AddOrder {
                    seller_acdm: from,
                    order_acdm: to,
                    ..*old(self)
                }),
                Err(e) => r == Err::<(), IdoError>(e) && *final(self) == *old(self),
            },
    {
        let mut from = self.seller_acdm;
        let mut to = self.order_acdm;
        transfer(&mut from, &mut to, amount)?;
        self.seller_acdm = from;
        self.order_acdm = to;
        Ok(())
    }
}

/// What `redeem_order` works on.
#[derive(Copy, Clone, Debug, PartialEq, Eq)]
pub struct RedeemOrder {
    pub ido: Ido,
    /// The treasury's balance of the stable asset.
    pub ido_usdc: TokenAccount,
    pub order: Order,
    /// The listing's escrow.
    pub order_acdm: TokenAccount,
    pub buyer: Pubkey,
    pub buyer_acdm: TokenAccount,
    pub buyer_usdc: TokenAccount,
    pub seller: Pubkey,
    pub seller_member: Member,
    pub seller_usdc: TokenAccount,
}

impl RedeemOrder {
    /// Moves `amount` of the stable asset from the buyer to the seller.
    pub fn transfer_usdc_to_seller(&mut self, amount: u64) -> (r: Result<(), IdoError>)
        ensures
            match transfer_outcome(old(self).buyer_usdc, old(self).seller_usdc, amount) {
                Ok((from, to)) => r is Ok && *final(self) == (RedeemOrder {
                    buyer_usdc: from,
                    seller_usdc: to,
                    ..*old(self)
                }),
                Err(e) => r == Err::<(), IdoError>(e) && *final(self) == *old(self),
            },
    {
        let mut from = self.buyer_usdc;
        let mut to = self.seller_usdc;
        transfer(&mut from, &mut to, amount)?;
        self.buyer_usdc = from;
        self.seller_usdc = to;
        Ok(())
    }

    /// Moves `amount` of the sale token from the escrow to the buyer.
    pub fn transfer_acdm_to_buyer(&mut self, amount: u64) -> (r: Result<(), IdoError>)
        ensures
            match transfer_outcome(old(self).order_acdm, old(self).buyer_acdm, amount) {
                Ok((from, to)) => r is Ok && *final(self) == (RedeemOrder {
                    order_acdm: from,
                    buyer_acdm: to,
                    ..*old(self)
                }),
                Err(e) => r == Err::<(), IdoError>(e) && *final(self) == *old(self),
            },
    {
        let mut from = self.order_acdm;
        let mut to = self.buyer_acdm;
        transfer(&mut from, &mut to, amount)?;
        self.order_acdm = from;
        self.buyer_acdm = to;
        Ok(())
    }
}

/// What `remove_order` works on.
#[derive(Copy, Clone, Debug, PartialEq, Eq)]
pub struct RemoveOrder {
    pub order: Order,
    /// The listing's escrow.
    pub order_acdm: TokenAccount,
    /// The caller.
    pub seller: Pubkey,
    pub seller_acdm: TokenAccount,
}

impl RemoveOrder {
    /// Moves what is left in the escrow back to the seller.
    pub fn send_leftover_to_seller(&mut self) -> (r: Result<(), IdoError>)
        ensures
            match transfer_outcome(
                old(self).order_acdm,
                old(self).seller_acdm,
                old(self).order_acdm.amount,
            ) {
                Ok((from, to)) => r is Ok && *final(self) == (RemoveOrder {
                    order_acdm: from,
                    seller_acdm: to,
                    ..*old(self)
                }),
                Err(e) => r == Err::<(), IdoError>(e) && *final(self) == *old(self),
            },
    {
        let amount = self.order_acdm.amount;
        if amount == 0 {
            return Ok(());
        }
        let mut from = self.order_acdm;
        let mut to = self.seller_acdm;
        transfer(&mut from, &mut to, amount)?;
        self.order_acdm = from;
        self.seller_acdm = to;
        Ok(())
    }

    /// Passes where the escrow can be released: it is empty. The host then
    /// releases it together with the listing.
    pub fn close_order_acdm_account(&self) -> (r: Result<(), IdoError>)
        ensures
            r == (if self.order_acdm.amount == 0 {
                Ok::<(), IdoError>(())
            } else {
                Err(IdoError::EscrowNotEmpty)
            }),
    {
        if self.order_acdm.amount == 0 {
            Ok(())
        } else {
            Err(IdoError::EscrowNotEmpty)
        }
    }
}

} // verus!
