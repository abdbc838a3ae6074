//! What the authority's operations work on.

use crate::account::{transfer, transfer_outcome, Ido, Pubkey, TokenAccount};
use crate::error::IdoError;
use vstd::prelude::*;

verus! {

/// What `initialize` works on.
#[derive(Copy, Clone, Debug, PartialEq, Eq)]
pub struct Initialize {
    /// The sale record to fill.
    pub ido: Ido,
    /// The caller, who becomes the authority.
    pub ido_authority: Pubkey,
    pub acdm_mint: Pubkey,
    pub usdc_mint: Pubkey,
}

/// What `start_sale_round` works on.
#[derive(Copy, Clone, Debug, PartialEq, Eq)]
pub struct StartSaleRound {
    pub ido: Ido,
    /// The caller.
    pub ido_authority: Pubkey,
    /// The treasury's balance of the sale token.
    pub ido_acdm: TokenAccount,
}

impl StartSaleRound {
    /// Mints `amount` of the sale token into the treasury.
    pub fn mint_acdm(&mut self, amount: u64) -> (r: Result<(), IdoError>)
        ensures
            r == (if old(self).ido_acdm.amount + amount > u64::MAX {
                Err::<(), IdoError>(IdoError::Overflow)
            } else {
                Ok(())
            }),
            r is Err ==> *final(self) == *old(self),
            r is Ok ==> *final(self) == (StartSaleRound {
                ido_acdm: TokenAccount {
                    owner: old(self).ido_acdm.owner,
                    amount: (old(self).ido_acdm.amount + amount) as u64,
                },
                ..*old(self)
            }),
    {
        let credited = self.ido_acdm.credit(amount)?;
        self.ido_acdm = credited;
        Ok(())
    }
}

/// What `start_trade_round` works on.
#[derive(Copy, Clone, Debug, PartialEq, Eq)]
pub struct StartTradeRound {
    pub ido: Ido,
    /// The caller.
    pub ido_authority: Pubkey,
    /// The treasury's balance of the sale token.
    pub ido_acdm: TokenAccount,
}

impl StartTradeRound {
    /// Destroys what the treasury holds of the sale token, and returns how
    /// much that was.
    pub fn burn_acdm(&mut self) -> (burned: u64)
        ensures
            burned == old(self).ido_acdm.amount,
            *final(self) == (StartTradeRound {
                ido_acdm: TokenAccount { owner: old(self).ido_acdm.owner, amount: 0 },
                ..*old(self)
            }),
    {
        let burned = self.ido_acdm.amount;
        if burned == 0 {
            return 0;
        }
        self.ido_acdm.amount = 0;
        burned
    }
}

/// What `withdraw_ido_usdc` works on.
#[derive(Copy, Clone, Debug, PartialEq, Eq)]
pub struct WithdrawIdoUsdc {
    pub ido: Ido,
    /// The caller.
    pub ido_authority: Pubkey,
    /// The treasury's balance of the stable asset.
    pub ido_usdc: TokenAccount,
    /// Where the proceeds go.
    pub to: TokenAccount,
}

impl WithdrawIdoUsdc {
    /// Moves the treasury's whole balance of the stable asset to `to`.
    pub fn transfer(&mut self) -> (r: Result<(), IdoError>)
        ensures
            match transfer_outcome(old(self).ido_usdc, old(self).to, old(self).ido_usdc.amount) {
                Ok((from, to)) => r is Ok && *final(self) == (WithdrawIdoUsdc {
                    ido_usdc: from,
                    to,
                    ..*old(self)
                }),
                Err(e) => r == Err::<(), IdoError>(e) && *final(self) == *old(self),
            },
    {
        let mut from = self.ido_usdc;
        let mut to = self.to;
        transfer(&mut from, &mut to, self.ido_usdc.amount)?;
        self.ido_usdc = from;
        self.to = to;
        Ok(())
    }
}

/// What `end_ido` works on.
#[derive(Copy, Clone, Debug, PartialEq, Eq)]
pub struct EndIdo {
    pub ido: Ido,
    /// The caller.
    pub ido_authority: Pubkey,
}

} // verus!
