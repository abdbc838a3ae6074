use ido::account::{
    Ido, IdoState, Member, MemberAccount, Order, Pubkey, RemainingAccount, TokenAccount,
};
use ido::context_user::{BuyAcdm, RedeemOrder, RegisterMember};
use ido::error::IdoError;
use ido::event::RegisterMemberEvent;
use ido::instructions::{buy_acdm, redeem_order, register_member};
use ido::referral::{
    check_referer_address, get_referer_member, member_address, pay_tier, route_fee,
    send_to_referers_and_ido, store_payees, Payout, ID,
};

fn key(n: u8) -> Pubkey {
    Pubkey::new([n; 32])
}

const SELLER: u8 = 10;
const BUYER: u8 = 20;
const TREASURY: u8 = 30;
const ESCROW: u8 = 40;
const FIRST: u8 = 50;
const SECOND: u8 = 60;

fn account(owner: u8, amount: u64) -> TokenAccount {
    TokenAccount { owner: key(owner), amount }
}

/// The membership record of `identity`, at the first address that a bump
/// derives, counting down.
fn record_of(identity: u8, referer: Option<u8>) -> MemberAccount {
    let mut bump = u8::MAX;
    loop {
        if let Some(address) = member_address(&key(identity), bump) {
            return MemberAccount {
                key: address,
                member: Member { bump, referer: referer.map(key) },
            };
        }
        bump -= 1;
    }
}

fn one_tier(balance: u64) -> Vec<RemainingAccount> {
    vec![
        RemainingAccount::Member(record_of(FIRST, None)),
        RemainingAccount::Token(account(FIRST, balance)),
    ]
}

fn two_tiers(balance: u64, balance2: u64) -> Vec<RemainingAccount> {
    vec![
        RemainingAccount::Member(record_of(FIRST, Some(SECOND))),
        RemainingAccount::Token(account(FIRST, balance)),
        RemainingAccount::Member(record_of(SECOND, None)),
        RemainingAccount::Token(account(SECOND, balance2)),
    ]
}

fn balance(accounts: &[RemainingAccount], at: usize) -> u64 {
    match accounts[at] {
        RemainingAccount::Token(account) => account.amount,
        RemainingAccount::Member(_) => panic!("a membership record holds no balance"),
    }
}

fn ido_in(state: IdoState) -> Ido {
    Ido {
        bump: 255,
        authority: key(1),
        state,
        acdm_mint: key(2),
        usdc_mint: key(3),
        acdm_price: 100_000,
        usdc_traded: 0,
        orders: 4,
        round_time: 100,
        current_state_start_ts: 1_000,
        sale_rounds_started: 1,
    }
}

fn listing(price: u64, referer: Option<u8>) -> RedeemOrder {
    RedeemOrder {
        ido: ido_in(IdoState::TradeRound),
        ido_usdc: account(TREASURY, 0),
        order: Order { bump: 250, authority: key(SELLER), price },
        order_acdm: account(ESCROW, 800),
        buyer: key(BUYER),
        buyer_acdm: account(BUYER, 0),
        buyer_usdc: account(BUYER, 1_000_000),
        seller: key(SELLER),
        seller_member: Member { bump: 255, referer: referer.map(key) },
        seller_usdc: account(SELLER, 0),
    }
}

fn purchase(referer: Option<u8>) -> BuyAcdm {
    BuyAcdm {
        ido: ido_in(IdoState::SaleRound),
        ido_acdm: account(TREASURY, 10_000),
        ido_usdc: account(TREASURY, 0),
        buyer: key(BUYER),
        buyer_member: Member { bump: 255, referer: referer.map(key) },
        buyer_acdm: account(BUYER, 0),
        buyer_usdc: account(BUYER, 10_000_000),
    }
}

#[test]
fn member_address_is_the_derived_program_address() {
    let program = anchor_lang::prelude::Pubkey::new_from_array(ID);
    assert_eq!(program.to_string(), "AUuf3MCis1CgAsFXHgson2r3g4VjqUdD7r3CUc8mEKj3");
    let identity = key(FIRST);
    let (expected, bump) = anchor_lang::prelude::Pubkey::find_program_address(
        &[&b"member"[..], &identity.to_bytes()[..]],
        &program,
    );
    let record = record_of(FIRST, None);
    assert_eq!(record.member.bump, bump);
    assert_eq!(record.key.to_bytes(), expected.to_bytes());
    assert_ne!(record.key, identity);
    assert_eq!(member_address(&identity, bump), Some(record.key));
    assert_ne!(member_address(&key(SECOND), record_of(SECOND, None).member.bump), Some(record.key));
}

#[test]
fn member_address_is_missing_where_the_seeds_hit_the_curve() {
    let identity = key(FIRST);
    let program = anchor_lang::prelude::Pubkey::new_from_array(ID);
    let mut seen_none = false;
    for bump in 0..=u8::MAX {
        let direct = anchor_lang::prelude::Pubkey::create_program_address(
            &[&b"member"[..], &identity.to_bytes()[..], &[bump][..]],
            &program,
        );
        let ours = member_address(&identity, bump);
        assert_eq!(ours.map(|k| k.to_bytes()), direct.ok().map(|k| k.to_bytes()));
        seen_none = seen_none || ours.is_none();
    }
    assert!(seen_none);
}

#[test]
fn derived_address_decides_whether_a_record_passes() {
    let record = record_of(FIRST, None);
    assert_eq!(check_referer_address(Some(record.key), record), Ok(record));
    assert_eq!(check_referer_address(Some(key(1)), record), Err(IdoError::RefererPda));
    assert_eq!(check_referer_address(None, record), Err(IdoError::RefererPda));
}

#[test]
fn referer_member_is_the_first_extra_account() {
    let record = record_of(FIRST, Some(SECOND));
    let accounts = vec![RemainingAccount::Member(record)];
    assert_eq!(get_referer_member(&accounts, key(FIRST)), Ok(record));
    assert_eq!(get_referer_member(&accounts, key(SECOND)), Err(IdoError::RefererPda));
    assert_eq!(
        get_referer_member(&[], key(FIRST)),
        Err(IdoError::RefererMemberAccountNotProvided)
    );
    assert_eq!(
        get_referer_member(&[RemainingAccount::Token(account(FIRST, 0))], key(FIRST)),
        Err(IdoError::RefererMemberAccountNotProvided)
    );
}

#[test]
fn referer_member_with_a_wrong_bump_or_address_is_refused() {
    let record = record_of(FIRST, None);
    let wrong_bump = MemberAccount {
        key: record.key,
        member: Member { bump: record.member.bump.wrapping_sub(1), referer: None },
    };
    assert_eq!(
        get_referer_member(&[RemainingAccount::Member(wrong_bump)], key(FIRST)),
        Err(IdoError::RefererPda)
    );
    let wrong_key = MemberAccount { key: key(FIRST), member: record.member };
    assert_eq!(
        get_referer_member(&[RemainingAccount::Member(wrong_key)], key(FIRST)),
        Err(IdoError::RefererPda)
    );
}

#[test]
fn register_member_without_referrer() {
    let mut ctx = RegisterMember { member: Member { bump: 0, referer: None }, authority: key(5) };
    assert_eq!(
        register_member(&mut ctx, None, &[], 253),
        Ok(RegisterMemberEvent { authority: key(5) })
    );
    assert_eq!(ctx.member, Member { bump: 253, referer: None });
}

#[test]
fn register_member_needs_the_referrer_to_be_a_member() {
    let before = RegisterMember { member: Member { bump: 0, referer: None }, authority: key(5) };
    let mut ctx = before;
    assert_eq!(
        register_member(&mut ctx, Some(key(FIRST)), &[], 253),
        Err(IdoError::RefererMemberAccountNotProvided)
    );
    assert_eq!(ctx, before);
    let spoofed = MemberAccount { key: key(FIRST), member: Member { bump: 255, referer: None } };
    assert_eq!(
        register_member(&mut ctx, Some(key(FIRST)), &[RemainingAccount::Member(spoofed)], 253),
        Err(IdoError::RefererPda)
    );
    assert_eq!(ctx, before);
    assert_eq!(
        register_member(&mut ctx, Some(key(FIRST)), &one_tier(0), 253),
        Ok(RegisterMemberEvent { authority: key(5) })
    );
    assert_eq!(ctx.member, Member { bump: 253, referer: Some(key(FIRST)) });
}

#[test]
fn redemption_with_one_referrer_halves_the_fee() {
    let mut ctx = listing(10, Some(FIRST));
    let mut extra = one_tier(7);
    redeem_order(&mut ctx, &mut extra, 4, 300).unwrap();
    assert_eq!(balance(&extra, 1), 7 + 75);
    assert_eq!(ctx.ido_usdc.amount, 75);
    assert_eq!(ctx.seller_usdc.amount, 2_850);
    assert_eq!(ctx.buyer_usdc.amount, 1_000_000 - 3_000);
    assert_eq!(extra[0], one_tier(7)[0]);

    let mut ctx = listing(103, Some(FIRST));
    let mut extra = one_tier(0);
    redeem_order(&mut ctx, &mut extra, 4, 10).unwrap();
    assert_eq!(balance(&extra, 1), 25);
    assert_eq!(ctx.ido_usdc.amount, 26);
    assert_eq!(ctx.seller_usdc.amount, 979);
    assert_eq!(ctx.buyer_usdc.amount, 1_000_000 - 1_030);
}

#[test]
fn redemption_with_two_referrers_leaves_the_treasury_nothing() {
    let mut ctx = listing(103, Some(FIRST));
    let mut extra = two_tiers(1, 2);
    redeem_order(&mut ctx, &mut extra, 4, 10).unwrap();
    assert_eq!(balance(&extra, 1), 1 + 25);
    assert_eq!(balance(&extra, 3), 2 + 26);
    assert_eq!(ctx.ido_usdc.amount, 0);
    assert_eq!(ctx.seller_usdc.amount, 979);
    assert_eq!(ctx.buyer_usdc.amount, 1_000_000 - 1_030);
    assert_eq!(ctx.order_acdm.amount, 790);
    assert_eq!(ctx.ido.usdc_traded, 1_030);
}

#[test]
fn purchase_with_referrers_pays_them_out_of_the_treasury_s_part() {
    let mut ctx = purchase(Some(FIRST));
    let mut extra = one_tier(0);
    buy_acdm(&mut ctx, &mut extra, 10).unwrap();
    assert_eq!(balance(&extra, 1), 25_000);
    assert_eq!(ctx.ido_usdc.amount, 975_000);
    assert_eq!(ctx.buyer_usdc.amount, 9_000_000);
    assert_eq!(ctx.buyer_acdm.amount, 10);

    let mut ctx = purchase(Some(FIRST));
    let mut extra = two_tiers(0, 0);
    buy_acdm(&mut ctx, &mut extra, 10).unwrap();
    assert_eq!(balance(&extra, 1), 25_000);
    assert_eq!(balance(&extra, 3), 25_000);
    assert_eq!(ctx.ido_usdc.amount, 950_000);
    assert_eq!(ctx.buyer_usdc.amount, 9_000_000);
    assert_eq!(ctx.ido_acdm.amount, 9_990);
}

#[test]
fn spoofed_record_stops_the_redemption_before_anything_moves() {
    let before = listing(10, Some(FIRST));
    let mut ctx = before;
    let spoofed = MemberAccount { key: key(FIRST), member: record_of(FIRST, None).member };
    let accounts = vec![
        RemainingAccount::Member(spoofed),
        RemainingAccount::Token(account(FIRST, 0)),
    ];
    let mut extra = accounts.clone();
    assert_eq!(redeem_order(&mut ctx, &mut extra, 4, 300), Err(IdoError::RefererPda));
    assert_eq!(ctx, before);
    assert_eq!(extra, accounts);

    let before = purchase(Some(FIRST));
    let mut ctx = before;
    assert_eq!(buy_acdm(&mut ctx, &mut extra, 10), Err(IdoError::RefererPda));
    assert_eq!(ctx, before);
    assert_eq!(extra, accounts);
}

#[test]
fn record_of_another_member_is_spoofing_too() {
    let before = listing(10, Some(FIRST));
    let mut ctx = before;
    let accounts = vec![
        RemainingAccount::Member(record_of(SECOND, None)),
        RemainingAccount::Token(account(FIRST, 0)),
    ];
    let mut extra = accounts.clone();
    assert_eq!(redeem_order(&mut ctx, &mut extra, 4, 300), Err(IdoError::RefererPda));
    assert_eq!(ctx, before);
    assert_eq!(extra, accounts);
}

#[test]
fn payout_account_must_be_there_and_belong_to_the_referrer() {
    let before = listing(10, Some(FIRST));
    let mut ctx = before;
    let mut extra = vec![RemainingAccount::Member(record_of(FIRST, None))];
    assert_eq!(
        redeem_order(&mut ctx, &mut extra, 4, 300),
        Err(IdoError::RefererTokenAccountNotProvided)
    );
    let mut extra = vec![
        RemainingAccount::Member(record_of(FIRST, None)),
        RemainingAccount::Member(record_of(FIRST, None)),
    ];
    assert_eq!(
        redeem_order(&mut ctx, &mut extra, 4, 300),
        Err(IdoError::RefererTokenAccountNotProvided)
    );
    let mut extra = vec![
        RemainingAccount::Member(record_of(FIRST, None)),
        RemainingAccount::Token(account(SECOND, 0)),
    ];
    assert_eq!(redeem_order(&mut ctx, &mut extra, 4, 300), Err(IdoError::RefererOwner));
    assert_eq!(balance(&extra, 1), 0);
    let mut extra: Vec<RemainingAccount> = Vec::new();
    assert_eq!(
        redeem_order(&mut ctx, &mut extra, 4, 300),
        Err(IdoError::RefererMemberAccountNotProvided)
    );
    assert_eq!(ctx, before);
}

#[test]
fn second_tier_failure_undoes_the_first_tier() {
    let before = listing(10, Some(FIRST));
    let mut ctx = before;
    let accounts = vec![
        RemainingAccount::Member(record_of(FIRST, Some(SECOND))),
        RemainingAccount::Token(account(FIRST, 0)),
    ];
    let mut extra = accounts.clone();
    assert_eq!(
        redeem_order(&mut ctx, &mut extra, 4, 300),
        Err(IdoError::RefererMemberAccountNotProvided)
    );
    assert_eq!(extra, accounts);

    let mut extra = two_tiers(0, 0);
    extra.truncate(3);
    assert_eq!(
        redeem_order(&mut ctx, &mut extra, 4, 300),
        Err(IdoError::RefererTokenAccountNotProvided)
    );
    assert_eq!(balance(&extra, 1), 0);

    let mut extra = two_tiers(0, 0);
    extra[3] = RemainingAccount::Token(account(FIRST, 0));
    assert_eq!(redeem_order(&mut ctx, &mut extra, 4, 300), Err(IdoError::RefererOwner));
    assert_eq!(balance(&extra, 1), 0);

    let mut extra = two_tiers(0, 0);
    extra[2] = RemainingAccount::Member(MemberAccount {
        key: key(SECOND),
        member: Member { bump: 255, referer: None },
    });
    assert_eq!(redeem_order(&mut ctx, &mut extra, 4, 300), Err(IdoError::RefererPda));
    assert_eq!(balance(&extra, 1), 0);

    let mut extra = two_tiers(0, u64::MAX);
    assert_eq!(redeem_order(&mut ctx, &mut extra, 4, 300), Err(IdoError::Overflow));
    assert_eq!(balance(&extra, 1), 0);
    assert_eq!(balance(&extra, 3), u64::MAX);
    assert_eq!(ctx, before);
}

#[test]
fn later_failure_undoes_the_referrers_payment() {
    let mut before = listing(10, Some(FIRST));
    before.order_acdm = account(ESCROW, 299);
    let mut ctx = before;
    let mut extra = two_tiers(0, 0);
    assert_eq!(redeem_order(&mut ctx, &mut extra, 4, 300), Err(IdoError::InsufficientFunds));
    assert_eq!(ctx, before);
    assert_eq!(extra, two_tiers(0, 0));
}

#[test]
fn routing_reports_what_it_paid() {
    let mut buyer = account(BUYER, 1_000);
    let mut treasury = account(TREASURY, 0);
    let mut extra: Vec<RemainingAccount> = Vec::new();
    assert_eq!(
        send_to_referers_and_ido(100, 30, 20, None, &mut buyer, &mut treasury, &mut extra),
        Ok(Payout { to_referer: None, to_referer2: None, to_ido: 100 })
    );
    assert_eq!((buyer.amount, treasury.amount), (900, 100));

    let mut extra = one_tier(0);
    assert_eq!(
        send_to_referers_and_ido(
            100,
            30,
            20,
            Some(key(FIRST)),
            &mut buyer,
            &mut treasury,
            &mut extra
        ),
        Ok(Payout { to_referer: Some(30), to_referer2: None, to_ido: 70 })
    );
    assert_eq!((buyer.amount, treasury.amount, balance(&extra, 1)), (800, 170, 30));

    let mut extra = two_tiers(0, 0);
    assert_eq!(
        send_to_referers_and_ido(
            100,
            30,
            70,
            Some(key(FIRST)),
            &mut buyer,
            &mut treasury,
            &mut extra
        ),
        Ok(Payout { to_referer: Some(30), to_referer2: Some(70), to_ido: 0 })
    );
    assert_eq!((buyer.amount, treasury.amount), (700, 170));
    assert_eq!((balance(&extra, 1), balance(&extra, 3)), (30, 70));
}

#[test]
fn routing_refuses_shares_larger_than_the_fee() {
    let mut buyer = account(BUYER, 1_000);
    let mut treasury = account(TREASURY, 0);
    let mut extra = two_tiers(0, 0);
    assert_eq!(
        send_to_referers_and_ido(
            100,
            101,
            0,
            Some(key(FIRST)),
            &mut buyer,
            &mut treasury,
            &mut extra
        ),
        Err(IdoError::Overflow)
    );
    assert_eq!(
        send_to_referers_and_ido(
            100,
            60,
            41,
            Some(key(FIRST)),
            &mut buyer,
            &mut treasury,
            &mut extra
        ),
        Err(IdoError::Overflow)
    );
    assert_eq!((buyer.amount, treasury.amount), (1_000, 0));
    assert_eq!(extra, two_tiers(0, 0));
}

#[test]
fn one_tier_is_validated_then_paid() {
    let accounts = one_tier(5);
    let paid = pay_tier(account(BUYER, 100), &accounts, key(FIRST), 50, 20).unwrap();
    assert_eq!(paid.buyer, account(BUYER, 80));
    assert_eq!(paid.payee, account(FIRST, 25));
    assert_eq!(paid.left, 30);
    assert_eq!(paid.member, record_of(FIRST, None).member);
    assert_eq!(
        pay_tier(account(BUYER, 19), &accounts, key(FIRST), 50, 20),
        Err(IdoError::InsufficientFunds)
    );
}

#[test]
fn routing_without_change_and_storing_agree_with_the_whole() {
    let accounts = two_tiers(3, 4);
    let routed =
        route_fee(100, 30, 20, Some(key(FIRST)), account(BUYER, 500), account(TREASURY, 1), &accounts)
            .unwrap();
    assert_eq!(routed.buyer.amount, 400);
    assert_eq!(routed.ido.amount, 51);
    assert_eq!(routed.payee1, Some(account(FIRST, 33)));
    assert_eq!(routed.payee2, Some(account(SECOND, 24)));
    assert_eq!(routed.payout, Payout { to_referer: Some(30), to_referer2: Some(20), to_ido: 50 });
    let mut stored = accounts.clone();
    store_payees(&mut stored, &routed);
    assert_eq!(stored[0], accounts[0]);
    assert_eq!(stored[2], accounts[2]);
    assert_eq!((balance(&stored, 1), balance(&stored, 3)), (33, 24));
}
