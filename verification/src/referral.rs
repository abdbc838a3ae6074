//! The referral chain: validating a referrer's record and payout account,
//! and routing a fee through up to two tiers to the treasury.

use crate::account::{
    transfer, transfer_outcome, Member, MemberAccount, Pubkey, RemainingAccount, TokenAccount,
};
use crate::error::IdoError;
use vstd::prelude::*;
use vstd::slice::slice_subrange;

verus! {

/// Address of the program that owns every record of the offering.
pub const ID: [u8; 32] = [
    140, 223, 103, 1, 96, 150, 138, 48, 97, 185, 113, 171, 219, 250, 152, 125,
    114, 122, 110, 252, 212, 238, 126, 57, 67, 184, 136, 134, 230, 238, 73, 118,
];

/// The address that the host derives from `seeds` for the program
/// `program_id`, or `None` where the seeds give no address.
pub uninterp spec fn program_address(seeds: Seq<Seq<u8>>, program_id: Seq<u8>) -> Option<Seq<u8>>;

/// Seeds of the membership record of `identity`: the word "member", the
/// identity, and the record's bump.
pub open spec fn member_seeds(identity: Pubkey, bump: u8) -> Seq<Seq<u8>> {
    seq![seq![109u8, 101u8, 109u8, 98u8, 101u8, 114u8], identity@, seq![bump]]
}

/// Calls `Pubkey::create_program_address` of `anchor_lang`, which hashes the
/// seeds, the program's address and a fixed marker, and gives the hash as the
/// address unless there are too many seeds, a seed is too long, or the hash
/// is a point of the curve. Trusted: the address, or its absence, depends on
/// the seeds and the program's address alone, and is what `program_address`
/// names.
#[verifier::external_body]
fn create_program_address(seeds: &Vec<Vec<u8>>, program_id: &Pubkey) -> (address: Option<Pubkey>)
    ensures
        match address {
            Some(key) => program_address(seeds.deep_view(), program_id@) == Some(key@),
            None => program_address(seeds.deep_view(), program_id@) is None,
        },
{
    let parts: Vec<&[u8]> = seeds.iter().map(|seed| seed.as_slice()).collect();
    let id = anchor_lang::prelude::Pubkey::new_from_array(program_id.bytes);
    match anchor_lang::prelude::Pubkey::create_program_address(&parts, &id) {
        Ok(key) => Some(Pubkey { bytes: key.to_bytes() }),
        Err(_) => None,
    }
}

/// Builds the seeds of the membership record of `identity`.
fn build_member_seeds(identity: &Pubkey, bump: u8) -> (seeds: Vec<Vec<u8>>)
    ensures
        seeds.deep_view() == member_seeds(*identity, bump),
{
    let mut tag: Vec<u8> = Vec::new();
    tag.push(109);
    tag.push(101);
    tag.push(109);
    tag.push(98);
    tag.push(101);
    tag.push(114);
    let mut id: Vec<u8> = Vec::new();
    let mut i: usize = 0;
    while i < 32
        invariant
            i <= 32,
            id@.len() == i,
            forall|j: int| 0 <= j < i ==> id@[j] == identity.bytes[j],
        decreases 32 - i,
    {
        id.push(identity.bytes[i]);
        i += 1;
    }
    let mut last: Vec<u8> = Vec::new();
    last.push(bump);
    let mut seeds: Vec<Vec<u8>> = Vec::new();
    seeds.push(tag);
    seeds.push(id);
    seeds.push(last);
    proof {
        assert(seeds@[0].deep_view() =~= seq![109u8, 101u8, 109u8, 98u8, 101u8, 114u8]);
        assert(seeds@[1].deep_view() =~= identity@);
        assert(seeds@[2].deep_view() =~= seq![bump]);
        assert(seeds.deep_view() =~= member_seeds(*identity, bump));
    }
    seeds
}

/// The address of the membership record of `identity` with the bump
/// `bump`, or `None` where the two derive no address.
pub fn member_address(identity: &Pubkey, bump: u8) -> (address: Option<Pubkey>)
    ensures
        match address {
            Some(key) => program_address(member_seeds(*identity, bump), ID@) == Some(key@),
            None => program_address(member_seeds(*identity, bump), ID@) is None,
        },
{
    let seeds = build_member_seeds(identity, bump);
    let program = Pubkey { bytes: ID };
    create_program_address(&seeds, &program)
}

/// Whether `record` is stored at the address derived from the identity
/// `referer` and the record's own bump.
pub open spec fn is_member_record_of(record: MemberAccount, referer: Pubkey) -> bool {
    program_address(member_seeds(referer, record.member.bump), ID@) == Some(record.key@)
}

/// Holds a derived address against the address that a record was supplied
/// at: the record passes where the two are the same.
pub fn check_referer_address(derived: Option<Pubkey>, record: MemberAccount) -> (r: Result<
    MemberAccount,
    IdoError,
>)
    ensures
        r == (if derived == Some(record.key) {
            Ok::<MemberAccount, IdoError>(record)
        } else {
            Err(IdoError::RefererPda)
        }),
{
    match derived {
        Some(key) => {
            if key.same(&record.key) {
                Ok(record)
            } else {
                Err(IdoError::RefererPda)
            }
        },
        None => Err(IdoError::RefererPda),
    }
}

/// What `get_referer_member` returns.
pub open spec fn referer_member_outcome(accounts: Seq<RemainingAccount>, referer: Pubkey) -> Result<
    MemberAccount,
    IdoError,
> {
    if accounts.len() == 0 {
        Err(IdoError::RefererMemberAccountNotProvided)
    } else {
        match accounts[0] {
            RemainingAccount::Token(_) => Err(IdoError::RefererMemberAccountNotProvided),
            RemainingAccount::Member(record) => if is_member_record_of(record, referer) {
                Ok(record)
            } else {
                Err(IdoError::RefererPda)
            },
        }
    }
}

/// The membership record of `referer`, which the caller supplies as the
/// first of `remaining_accounts`. It is accepted only at the address that
/// the referrer's identity derives.
pub fn get_referer_member(remaining_accounts: &[RemainingAccount], referer: Pubkey) -> (r: Result<
    MemberAccount,
    IdoError,
>)
    ensures
        r == referer_member_outcome(remaining_accounts@, referer),
{
    if remaining_accounts.len() == 0 {
        return Err(IdoError::RefererMemberAccountNotProvided);
    }
    match remaining_accounts[0] {
        RemainingAccount::Token(_) => Err(IdoError::RefererMemberAccountNotProvided),
        RemainingAccount::Member(record) => {
            let derived = member_address(&referer, record.member.bump);
            proof {
                if let Some(key) = derived {
                    Pubkey::lemma_view_decides(key, record.key);
                }
            }
            check_referer_address(derived, record)
        },
    }
}

/// What one payment handed to the referrers and to the treasury.
#[derive(Copy, Clone, Debug, PartialEq, Eq)]
pub struct Payout {
    /// Paid to the first referrer; `None` where there is none.
    pub to_referer: Option<u64>,
    /// Paid to the first referrer's own referrer; `None` where there is none.
    pub to_referer2: Option<u64>,
    /// Paid to the treasury.
    pub to_ido: u64,
}

/// One tier of a referral chain after it was paid.
#[derive(Copy, Clone, Debug, PartialEq, Eq)]
pub struct TierPaid {
    /// The payer's account after the payment.
    pub buyer: TokenAccount,
    /// The referrer's payout account after the payment.
    pub payee: TokenAccount,
    /// What is left of the amount that the share was taken from.
    pub left: u64,
    /// The referrer's membership.
    pub member: Member,
}

/// Validates and pays one tier. `accounts` starts with the tier's two
/// entries: the referrer's membership record, then the referrer's payout
/// account. The record must sit at its derived address and the payout
/// account must be owned by the referrer; only then is `share` taken out of
/// `pool` and moved from `buyer` to the payout account.
pub open spec fn tier_outcome(
    buyer: TokenAccount,
    accounts: Seq<RemainingAccount>,
    referer: Pubkey,
    pool: u64,
    share: u64,
) -> Result<TierPaid, IdoError> {
    match referer_member_outcome(accounts, referer) {
        Err(e) => Err(e),
        Ok(record) => if accounts.len() < 2 {
            Err(IdoError::RefererTokenAccountNotProvided)
        } else {
            match accounts[1] {
                RemainingAccount::Member(_) => Err(IdoError::RefererTokenAccountNotProvided),
                RemainingAccount::Token(payee) => if payee.owner != referer {
                    Err(IdoError::RefererOwner)
                } else if pool < share {
                    Err(IdoError::Overflow)
                } else {
                    match transfer_outcome(buyer, payee, share) {
                        Err(e) => Err(e),
                        Ok((b, p)) => Ok(
                            TierPaid {
                                buyer: b,
                                payee: p,
                                left: (pool - share) as u64,
                                member: record.member,
                            },
                        ),
                    }
                },
            }
        },
    }
}

/// Validates and pays one tier of a referral chain, changing nothing: the
/// accounts after the payment are in the result.
pub fn pay_tier(
    buyer: TokenAccount,
    accounts: &[RemainingAccount],
    referer: Pubkey,
    pool: u64,
    share: u64,
) -> (r: Result<TierPaid, IdoError>)
    ensures
        r == tier_outcome(buyer, accounts@, referer, pool, share),
{
    let record = match get_referer_member(accounts, referer) {
        Ok(record) => record,
        Err(e) => { return Err(e); },
    };
    if accounts.len() < 2 {
        return Err(IdoError::RefererTokenAccountNotProvided);
    }
    match accounts[1] {
        RemainingAccount::Member(_) => Err(IdoError::RefererTokenAccountNotProvided),
        RemainingAccount::Token(payee) => {
            if !payee.owner.same(&referer) {
                return Err(IdoError::RefererOwner);
            }
            if pool < share {
                return Err(IdoError::Overflow);
            }
            let mut b = buyer;
            let mut p = payee;
            match transfer(&mut b, &mut p, share) {
                Err(e) => Err(e),
                Ok(()) => Ok(TierPaid { buyer: b, payee: p, left: pool - share, member: record.member }),
            }
        },
    }
}

/// A payment's fee portion after it was routed: the accounts that it
/// touched, as they stand afterwards, and the amounts.
#[derive(Copy, Clone, Debug, PartialEq, Eq)]
pub struct FeeRouted {
    /// The payer's account.
    pub buyer: TokenAccount,
    /// The treasury's account.
    pub ido: TokenAccount,
    /// The first referrer's payout account, where there is a first referrer.
    pub payee1: Option<TokenAccount>,
    /// The second referrer's payout account, where there is one.
    pub payee2: Option<TokenAccount>,
    pub payout: Payout,
}

/// The last step of routing: what is left of the fee goes from the payer to
/// the treasury.
pub open spec fn treasury_outcome(
    buyer: TokenAccount,
    ido: TokenAccount,
    left: u64,
    payee1: Option<TokenAccount>,
    payee2: Option<TokenAccount>,
    to_referer: Option<u64>,
    to_referer2: Option<u64>,
) -> Result<FeeRouted, IdoError> {
    match transfer_outcome(buyer, ido, left) {
        Err(e) => Err(e),
        Ok((b, i)) => Ok(
            FeeRouted {
                buyer: b,
                ido: i,
                payee1,
                payee2,
                payout: Payout { to_referer, to_referer2, to_ido: left },
            },
        ),
    }
}

/// How the fee portion `to_ido` of one payment is routed.
///
/// Without a referrer the whole of it goes to the treasury. With one, the
/// extra accounts start with the referrer's membership record and payout
/// account, and the referrer gets `to_referer`. If the referrer has a
/// referrer of its own, the next two extra accounts are that one's record and
/// payout account, and it gets `to_referer2`. The treasury gets what is left.
/// The steps happen in this order, and the first that fails decides the
/// error.
pub open spec fn routing_outcome(
    to_ido: u64,
    to_referer: u64,
    to_referer2: u64,
    referer: Option<Pubkey>,
    buyer: TokenAccount,
    ido: TokenAccount,
    accounts: Seq<RemainingAccount>,
) -> Result<FeeRouted, IdoError> {
    match referer {
        None => treasury_outcome(buyer, ido, to_ido, None, None, None, None),
        Some(first) => match tier_outcome(buyer, accounts, first, to_ido, to_referer) {
            Err(e) => Err(e),
            Ok(t1) => match t1.member.referer {
                None => treasury_outcome(
                    t1.buyer,
                    ido,
                    t1.left,
                    Some(t1.payee),
                    None,
                    Some(to_referer),
                    None,
                ),
                Some(second) => match tier_outcome(
                    t1.buyer,
                    accounts.subrange(2, accounts.len() as int),
                    second,
                    t1.left,
                    to_referer2,
                ) {
                    Err(e) => Err(e),
                    Ok(t2) => treasury_outcome(
                        t2.buyer,
                        ido,
                        t2.left,
                        Some(t1.payee),
                        Some(t2.payee),
                        Some(to_referer),
                        Some(to_referer2),
                    ),
                },
            },
        },
    }
}

/// Routes the fee portion of one payment, changing nothing: the accounts
/// after the payment are in the result.
pub fn route_fee(
    to_ido: u64,
    to_referer: u64,
    to_referer2: u64,
    referer: Option<Pubkey>,
    buyer: TokenAccount,
    ido: TokenAccount,
    accounts: &[RemainingAccount],
) -> (r: Result<FeeRouted, IdoError>)
    ensures
        r == routing_outcome(to_ido, to_referer, to_referer2, referer, buyer, ido, accounts@),
{
    let mut buyer = buyer;
    let mut ido = ido;
    let mut left = to_ido;
    let mut payee1: Option<TokenAccount> = None;
    let mut payee2: Option<TokenAccount> = None;
    let mut paid1: Option<u64> = None;
    let mut paid2: Option<u64> = None;
    match referer {
        None => {},
        Some(first) => {
            let t1 = match pay_tier(buyer, accounts, first, left, to_referer) {
                Ok(t1) => t1,
                Err(e) => { return Err(e); },
            };
            buyer = t1.buyer;
            left = t1.left;
            payee1 = Some(t1.payee);
            paid1 = Some(to_referer);
            match t1.member.referer {
                None => {},
                Some(second) => {
                    let rest = slice_subrange(accounts, 2, accounts.len());
                    let t2 = match pay_tier(buyer, rest, second, left, to_referer2) {
                        Ok(t2) => t2,
                        Err(e) => { return Err(e); },
                    };
                    buyer = t2.buyer;
                    left = t2.left;
                    payee2 = Some(t2.payee);
                    paid2 = Some(to_referer2);
                },
            }
        },
    }
    if left != 0 {
        match transfer(&mut buyer, &mut ido, left) {
            Ok(()) => {},
            Err(e) => { return Err(e); },
        }
    }
    Ok(
        FeeRouted {
            buyer,
            ido,
            payee1,
            payee2,
            payout: Payout { to_referer: paid1, to_referer2: paid2, to_ido: left },
        },
    )
}

/// The extra accounts after a payment: the payout accounts that were paid
/// stand at the second and the fourth place.
pub open spec fn settled_accounts(accounts: Seq<RemainingAccount>, routed: FeeRouted) -> Seq<
    RemainingAccount,
> {
    let first = match routed.payee1 {
        Some(payee) if accounts.len() > 1 => accounts.update(1, RemainingAccount::Token(payee)),
        _ => accounts,
    };
    match routed.payee2 {
        Some(payee) if accounts.len() > 3 => first.update(3, RemainingAccount::Token(payee)),
        _ => first,
    }
}

/// Writes the paid payout accounts back among the extra accounts.
pub fn store_payees(remaining_accounts: &mut Vec<RemainingAccount>, routed: &FeeRouted)
    ensures
        final(remaining_accounts)@ == settled_accounts(old(remaining_accounts)@, *routed),
{
    match routed.payee1 {
        Some(payee) => {
            if remaining_accounts.len() > 1 {
                remaining_accounts[1] = RemainingAccount::Token(payee);
            }
        },
        None => {},
    }
    match routed.payee2 {
        Some(payee) => {
            if remaining_accounts.len() > 3 {
                remaining_accounts[3] = RemainingAccount::Token(payee);
            }
        },
        None => {},
    }
}

/// Splits the fee portion of one payment between up to two referrers and
/// the treasury, and moves each share out of the payer's account. Either
/// every share moves or nothing changes.
pub fn send_to_referers_and_ido(
    usdc_amount_to_ido: u64,
    usdc_amount_to_referer: u64,
    usdc_amount_to_referer2: u64,
    referer: Option<Pubkey>,
    buyer_usdc: &mut TokenAccount,
    ido_usdc: &mut TokenAccount,
    remaining_accounts: &mut Vec<RemainingAccount>,
) -> (r: Result<Payout, IdoError>)
    ensures
        match routing_outcome(
            usdc_amount_to_ido,
            usdc_amount_to_referer,
            usdc_amount_to_referer2,
            referer,
            *old(buyer_usdc),
            *old(ido_usdc),
            old(remaining_accounts)@,
        ) {
            Ok(routed) => r == Ok::<Payout, IdoError>(routed.payout) && *final(buyer_usdc)
                == routed.buyer && *final(ido_usdc) == routed.ido && final(remaining_accounts)@
                == settled_accounts(old(remaining_accounts)@, routed),
            Err(e) => r == Err::<Payout, IdoError>(e) && *final(buyer_usdc) == *old(buyer_usdc)
                && *final(ido_usdc) == *old(ido_usdc) && final(remaining_accounts)@ == old(remaining_accounts)@,
        },
{
    let routed = match route_fee(
        usdc_amount_to_ido,
        usdc_amount_to_referer,
        usdc_amount_to_referer2,
        referer,
        *buyer_usdc,
        *ido_usdc,
        remaining_accounts.as_slice(),
    ) {
        Ok(routed) => routed,
        Err(e) => { return Err(e); },
    };
    store_payees(remaining_accounts, &routed);
    *buyer_usdc = routed.buyer;
    *ido_usdc = routed.ido;
    Ok(routed.payout)
}

} // verus!
