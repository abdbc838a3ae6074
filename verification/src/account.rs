//! The records of the offering and the balances that it moves.

use crate::error::IdoError;
use vstd::prelude::*;

verus! {

/// A 32-byte identity or address.
#[derive(Copy, Clone, Debug, PartialEq, Eq)]
pub struct Pubkey {
    pub bytes: [u8; 32],
}

impl View for Pubkey {
    type V = Seq<u8>;

    open spec fn view(&self) -> Seq<u8> {
        self.bytes@
    }
}

impl Pubkey {
    /// The key that holds `bytes`.
    pub fn new(bytes: [u8; 32]) -> (key: Pubkey)
        ensures
            key.bytes == bytes,
    {
        Pubkey { bytes }
    }

    /// The bytes of the key.
    pub fn to_bytes(&self) -> (bytes: [u8; 32])
        ensures
            bytes == self.bytes,
    {
        self.bytes
    }

    /// Two keys that hold the same bytes are the same key.
    pub proof fn lemma_view_decides(a: Pubkey, b: Pubkey)
        ensures
            (a@ == b@) == (a == b),
    {
        if a@ == b@ {
            assert forall|i: int| 0 <= i < 32 implies a.bytes[i] == b.bytes[i] by {
                assert(a.bytes@[i] == b.bytes@[i]);
            }
            assert(a.bytes =~= b.bytes);
        }
    }

    /// Whether two keys are the same, byte for byte.
    pub fn same(&self, other: &Pubkey) -> (r: bool)
        ensures
            r == (*self == *other),
            r == (self@ == other@),
    {
        let mut i: usize = 0;
        while i < 32
            invariant
                i <= 32,
                forall|j: int| 0 <= j < i ==> self.bytes[j] == other.bytes[j],
            decreases 32 - i,
        {
            if self.bytes[i] != other.bytes[i] {
                assert(self@[i as int] != other@[i as int]);
                return false;
            }
            i += 1;
        }
        assert(self.bytes =~= other.bytes);
        true
    }
}

/// Phase of the offering.
#[derive(Copy, Clone, Debug, PartialEq, Eq, Structural)]
pub enum IdoState {
    /// Created, no round yet.
    NotStarted,
    /// The treasury sells at the round's price.
    SaleRound,
    /// Holders list and redeem among themselves.
    TradeRound,
    /// Ended for good.
    Over,
}

/// The sale record: one per offering.
#[derive(Copy, Clone, Debug, PartialEq, Eq)]
pub struct Ido {
    pub bump: u8,
    /// Who may start and end rounds and withdraw the proceeds.
    pub authority: Pubkey,
    pub state: IdoState,
    /// The token on sale.
    pub acdm_mint: Pubkey,
    /// The stable asset that pays for it.
    pub usdc_mint: Pubkey,
    /// Price of one token, set when a sale round starts.
    pub acdm_price: u64,
    /// Stable-asset volume of the current or latest round.
    pub usdc_traded: u64,
    /// Listings ever created, and the next listing's identifier.
    pub orders: u64,
    /// Seconds that a round must last before it can be ended.
    pub round_time: u32,
    /// When the current state began.
    pub current_state_start_ts: u32,
    /// Sale rounds so far: zero means that the next one takes the initial
    /// price.
    pub sale_rounds_started: u8,
}

impl Ido {
    /// Bytes that a stored sale record takes.
    pub const LEN: usize = 1 + 32 + 1 + 32 + 32 + 8 + 8 + 8 + 4 + 4 + 1;
}

/// A listing: an offer to sell escrowed tokens at a fixed price.
#[derive(Copy, Clone, Debug, PartialEq, Eq)]
pub struct Order {
    pub bump: u8,
    /// The seller.
    pub authority: Pubkey,
    /// Price of one token.
    pub price: u64,
}

impl Order {
    /// Bytes that a stored listing takes.
    pub const LEN: usize = 1 + 32 + 8;
}

/// A referral membership: the one upstream referrer of an identity, if any.
#[derive(Copy, Clone, Debug, PartialEq, Eq)]
pub struct Member {
    pub bump: u8,
    pub referer: Option<Pubkey>,
}

impl Member {
    /// Bytes that a stored membership takes.
    pub const LEN: usize = 1 + 33;
}

/// A balance of one asset, as the token ledger keeps it.
#[derive(Copy, Clone, Debug, PartialEq, Eq)]
pub struct TokenAccount {
    /// Who may move the balance.
    pub owner: Pubkey,
    pub amount: u64,
}

/// A membership record together with the address it is stored at.
#[derive(Copy, Clone, Debug, PartialEq, Eq)]
pub struct MemberAccount {
    pub key: Pubkey,
    pub member: Member,
}

/// One of the extra accounts that carry a referral chain.
#[derive(Copy, Clone, Debug, PartialEq, Eq)]
pub enum RemainingAccount {
    Member(MemberAccount),
    Token(TokenAccount),
}

/// What the ledger does when `amount` moves from `from` to `to`: the two
/// balances afterwards, or the reason why nothing moves.
pub open spec fn transfer_outcome(from: TokenAccount, to: TokenAccount, amount: u64) -> Result<
    (TokenAccount, TokenAccount),
    IdoError,
> {
    if from.amount < amount {
        Err(IdoError::InsufficientFunds)
    } else if to.amount + amount > u64::MAX {
        Err(IdoError::Overflow)
    } else {
        Ok(
            (
                TokenAccount { owner: from.owner, amount: (from.amount - amount) as u64 },
                TokenAccount { owner: to.owner, amount: (to.amount + amount) as u64 },
            ),
        )
    }
}

impl TokenAccount {
    /// Takes `amount` out of the balance.
    pub fn debit(&self, amount: u64) -> (r: Result<TokenAccount, IdoError>)
        ensures
            r == (if self.amount < amount {
                Err::<TokenAccount, IdoError>(IdoError::InsufficientFunds)
            } else {
                Ok(TokenAccount { owner: self.owner, amount: (self.amount - amount) as u64 })
            }),
    {
        if self.amount < amount {
            Err(IdoError::InsufficientFunds)
        } else {
            Ok(TokenAccount { owner: self.owner, amount: self.amount - amount })
        }
    }

    /// Adds `amount` to the balance.
    pub fn credit(&self, amount: u64) -> (r: Result<TokenAccount, IdoError>)
        ensures
            r == (if self.amount + amount > u64::MAX {
                Err::<TokenAccount, IdoError>(IdoError::Overflow)
            } else {
                Ok(TokenAccount { owner: self.owner, amount: (self.amount + amount) as u64 })
            }),
    {
        match self.amount.checked_add(amount) {
            None => Err(IdoError::Overflow),
            Some(sum) => Ok(TokenAccount { owner: self.owner, amount: sum }),
        }
    }
}

/// Moves `amount` from one balance to another, or leaves both as they are.
pub fn transfer(from: &mut TokenAccount, to: &mut TokenAccount, amount: u64) -> (r: Result<
    (),
    IdoError,
>)
    ensures
        match transfer_outcome(*old(from), *old(to), amount) {
            Ok((f, t)) => r is Ok && *final(from) == f && *final(to) == t,
            Err(e) => r == Err::<(), IdoError>(e) && *final(from) == *old(from)
                && *final(to) == *old(to),
        },
{
    let f = match from.debit(amount) {
        Ok(f) => f,
        Err(e) => { return Err(e); },
    };
    let t = match to.credit(amount) {
        Ok(t) => t,
        Err(e) => { return Err(e); },
    };
    *from = f;
    *to = t;
    Ok(())
}

} // verus!
