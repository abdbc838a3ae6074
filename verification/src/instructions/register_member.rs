use crate::account::{Member, Pubkey, RemainingAccount};
use crate::context_user::RegisterMember;
use crate::error::IdoError;
use crate::event::RegisterMemberEvent;
use crate::referral::{get_referer_member, referer_member_outcome};
use vstd::prelude::*;

verus! {

/// What `register_member` does: the membership is recorded with the chosen
/// referrer, which must be a member itself, its record being the first of
/// the extra accounts.
pub open spec fn register_member_outcome(
    ctx: RegisterMember,
    referer: Option<Pubkey>,
    accounts: Seq<RemainingAccount>,
    bump: u8,
) -> Result<(RegisterMember, RegisterMemberEvent), IdoError> {
    let registered = (
        RegisterMember { member: Member { bump, referer }, ..ctx },
        RegisterMemberEvent { authority: ctx.authority },
    );
    match referer {
        None => Ok(registered),
        Some(identity) => match referer_member_outcome(accounts, identity) {
            Err(e) => Err(e),
            Ok(_) => Ok(registered),
        },
    }
}

/// Records the caller's membership and its referrer, if it names one.
pub fn register_member(
    ctx: &mut RegisterMember,
    referer: Option<Pubkey>,
    remaining_accounts: &[RemainingAccount],
    bump: u8,
) -> (r: Result<RegisterMemberEvent, IdoError>)
    ensures
        match register_member_outcome(*old(ctx), referer, remaining_accounts@, bump) {
            Ok((after, event)) => r == Ok::<RegisterMemberEvent, IdoError>(event) && *final(ctx)
                == after,
            Err(e) => r == Err::<RegisterMemberEvent, IdoError>(e) && *final(ctx) == *old(ctx),
        },
{
    match referer {
        Some(identity) => {
            get_referer_member(remaining_accounts, identity)?;
        },
        None => {},
    }
    ctx.member = Member { bump, referer };
    Ok(RegisterMemberEvent { authority: ctx.authority })
}

} // verus!
