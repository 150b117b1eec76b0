use ajo::formation::{is_member, is_position_taken};
use ajo::{
    create_pool, join_pool, AjoError, CreatePool, CurrencyType, CyclePeriod, Identity, JoinPool,
    MemberAccount, PoolAccount, VaultAccount,
};

fn id(n: u8) -> Identity {
    Identity::new([n; 32])
}

fn blank_create(creator: Identity, pool_key: Identity) -> CreatePool {
    CreatePool {
        pool: PoolAccount::default(),
        member: MemberAccount::default(),
        vault: VaultAccount::default(),
        creator,
        pool_key,
        member_bump: 254,
        vault_bump: 253,
    }
}

fn forming_pool(total_members: u8, creator_position: u8) -> PoolAccount {
    let mut ctx = blank_create(id(1), id(100));
    create_pool(
        &mut ctx,
        7,
        CurrencyType::SOL,
        10,
        total_members,
        3,
        CyclePeriod::Monthly,
        creator_position,
        255,
    )
    .unwrap();
    ctx.pool
}

fn join_as(pool: PoolAccount, user: Identity) -> JoinPool {
    JoinPool { pool, member: MemberAccount::default(), user, pool_key: id(100), member_bump: 250 }
}

#[test]
fn create_fills_pool_member_and_vault() {
    let mut ctx = blank_create(id(1), id(100));
    let result = create_pool(
        &mut ctx,
        42,
        CurrencyType::USDC,
        1_000,
        5,
        12,
        CyclePeriod::Weekly,
        3,
        251,
    );
    assert_eq!(result, Ok(()));
    assert_eq!(ctx.pool.creator, id(1));
    assert_eq!(ctx.pool.pool_id, 42);
    assert_eq!(ctx.pool.currency, CurrencyType::USDC);
    assert_eq!(ctx.pool.contribution_amount, 1_000);
    assert_eq!(ctx.pool.total_members, 5);
    assert_eq!(ctx.pool.member_count, 1);
    assert_eq!(ctx.pool.members, vec![id(1)]);
    assert_eq!(ctx.pool.payout_order, vec![(id(1), 3)]);
    assert_eq!(ctx.pool.current_cycle, 0);
    assert_eq!(ctx.pool.total_cycles, 12);
    assert_eq!(ctx.pool.cycle_period, CyclePeriod::Weekly);
    assert_eq!(ctx.pool.last_contribution_time, 0);
    assert!(!ctx.pool.active);
    assert_eq!(ctx.pool.bump, 251);
    assert_eq!(ctx.member.wallet, id(1));
    assert_eq!(ctx.member.pool, id(100));
    assert!(!ctx.member.has_collected);
    assert_eq!(ctx.member.contributions_made, 0);
    assert_eq!(ctx.member.payout_position, 3);
    assert!(ctx.member.questionnaire_answers.is_empty());
    assert_eq!(ctx.member.bump, 254);
    assert_eq!(ctx.vault, VaultAccount { pool: id(100), amount: 0, bump: 253 });
}

#[test]
fn create_overwrites_whatever_the_records_held() {
    let mut ctx = blank_create(id(1), id(100));
    ctx.pool.active = true;
    ctx.pool.current_cycle = 9;
    ctx.pool.members = vec![id(8), id(9)];
    ctx.member.has_collected = true;
    ctx.member.questionnaire_answers = vec![String::from("old")];
    ctx.vault.amount = 77;
    create_pool(&mut ctx, 1, CurrencyType::SOL, 10, 2, 1, CyclePeriod::Monthly, 1, 0).unwrap();
    assert!(!ctx.pool.active);
    assert_eq!(ctx.pool.current_cycle, 0);
    assert_eq!(ctx.pool.members, vec![id(1)]);
    assert!(!ctx.member.has_collected);
    assert!(ctx.member.questionnaire_answers.is_empty());
    assert_eq!(ctx.vault.amount, 0);
}

#[test]
fn create_accepts_the_smallest_and_the_largest_group() {
    let mut small = blank_create(id(1), id(100));
    assert_eq!(
        create_pool(&mut small, 1, CurrencyType::SOL, 1, 2, 1, CyclePeriod::Weekly, 2, 0),
        Ok(())
    );
    let mut large = blank_create(id(1), id(100));
    assert_eq!(
        create_pool(&mut large, 1, CurrencyType::SOL, u64::MAX, 10, 255, CyclePeriod::Weekly, 10, 0),
        Ok(())
    );
    assert_eq!(large.pool.payout_order, vec![(id(1), 10)]);
}

#[test]
fn create_refuses_a_group_of_one() {
    let mut ctx = blank_create(id(1), id(100));
    let before = ctx.clone();
    assert_eq!(
        create_pool(&mut ctx, 1, CurrencyType::SOL, 10, 1, 3, CyclePeriod::Weekly, 1, 0),
        Err(AjoError::InvalidPoolSize)
    );
    assert_eq!(ctx, before);
}

#[test]
fn create_refuses_a_group_of_eleven() {
    let mut ctx = blank_create(id(1), id(100));
    let before = ctx.clone();
    assert_eq!(
        create_pool(&mut ctx, 1, CurrencyType::SOL, 10, 11, 3, CyclePeriod::Weekly, 1, 0),
        Err(AjoError::InvalidPoolSize)
    );
    assert_eq!(ctx, before);
}

#[test]
fn create_refuses_a_zero_contribution() {
    let mut ctx = blank_create(id(1), id(100));
    let before = ctx.clone();
    assert_eq!(
        create_pool(&mut ctx, 1, CurrencyType::SOL, 0, 5, 3, CyclePeriod::Weekly, 1, 0),
        Err(AjoError::InvalidContribution)
    );
    assert_eq!(ctx, before);
}

#[test]
fn create_refuses_zero_cycles() {
    let mut ctx = blank_create(id(1), id(100));
    let before = ctx.clone();
    assert_eq!(
        create_pool(&mut ctx, 1, CurrencyType::SOL, 10, 5, 0, CyclePeriod::Weekly, 1, 0),
        Err(AjoError::InvalidCyclePeriod)
    );
    assert_eq!(ctx, before);
}

#[test]
fn create_refuses_position_zero_and_position_beyond_the_group() {
    let mut ctx = blank_create(id(1), id(100));
    let before = ctx.clone();
    assert_eq!(
        create_pool(&mut ctx, 1, CurrencyType::SOL, 10, 5, 3, CyclePeriod::Weekly, 0, 0),
        Err(AjoError::InvalidPayoutPosition)
    );
    assert_eq!(
        create_pool(&mut ctx, 1, CurrencyType::SOL, 10, 5, 3, CyclePeriod::Weekly, 6, 0),
        Err(AjoError::InvalidPayoutPosition)
    );
    assert_eq!(ctx, before);
}

#[test]
fn create_names_the_first_fault_it_meets() {
    let mut ctx = blank_create(id(1), id(100));
    assert_eq!(
        create_pool(&mut ctx, 1, CurrencyType::SOL, 0, 1, 0, CyclePeriod::Weekly, 0, 0),
        Err(AjoError::InvalidPoolSize)
    );
    assert_eq!(
        create_pool(&mut ctx, 1, CurrencyType::SOL, 0, 5, 0, CyclePeriod::Weekly, 0, 0),
        Err(AjoError::InvalidContribution)
    );
    assert_eq!(
        create_pool(&mut ctx, 1, CurrencyType::SOL, 1, 5, 0, CyclePeriod::Weekly, 0, 0),
        Err(AjoError::InvalidCyclePeriod)
    );
}

#[test]
fn join_adds_the_member_and_keeps_the_pool_forming() {
    let mut ctx = join_as(forming_pool(3, 2), id(2));
    let answers = vec![String::from("yes"), String::from("monthly salary")];
    assert_eq!(join_pool(&mut ctx, 3, answers.clone()), Ok(()));
    assert_eq!(ctx.pool.member_count, 2);
    assert_eq!(ctx.pool.members, vec![id(1), id(2)]);
    assert_eq!(ctx.pool.payout_order, vec![(id(1), 2), (id(2), 3)]);
    assert!(!ctx.pool.active);
    assert_eq!(ctx.pool.current_cycle, 0);
    assert_eq!(ctx.pool.last_contribution_time, 0);
    assert_eq!(ctx.member.wallet, id(2));
    assert_eq!(ctx.member.pool, id(100));
    assert!(!ctx.member.has_collected);
    assert_eq!(ctx.member.contributions_made, 0);
    assert_eq!(ctx.member.payout_position, 3);
    assert_eq!(ctx.member.questionnaire_answers, answers);
    assert_eq!(ctx.member.bump, 250);
}

#[test]
fn the_join_that_fills_the_pool_activates_and_sorts_it() {
    let mut second = join_as(forming_pool(3, 3), id(2));
    join_pool(&mut second, 1, vec![]).unwrap();
    assert!(!second.pool.active);
    assert_eq!(second.pool.payout_order, vec![(id(1), 3), (id(2), 1)]);
    let mut third = join_as(second.pool, id(3));
    join_pool(&mut third, 2, vec![]).unwrap();
    assert!(third.pool.active);
    assert_eq!(third.pool.member_count, 3);
    assert_eq!(third.pool.members, vec![id(1), id(2), id(3)]);
    assert_eq!(third.pool.payout_order, vec![(id(2), 1), (id(3), 2), (id(1), 3)]);
}

#[test]
fn join_refuses_an_active_pool() {
    let mut second = join_as(forming_pool(2, 1), id(2));
    join_pool(&mut second, 2, vec![]).unwrap();
    assert!(second.pool.active);
    let mut late = join_as(second.pool, id(3));
    let before = late.clone();
    assert_eq!(join_pool(&mut late, 2, vec![]), Err(AjoError::PoolActive));
    assert_eq!(late, before);
}

#[test]
fn join_refuses_a_full_pool_that_is_not_active() {
    let mut pool = forming_pool(2, 1);
    pool.member_count = 2;
    let mut ctx = join_as(pool, id(3));
    let before = ctx.clone();
    assert_eq!(join_pool(&mut ctx, 2, vec![]), Err(AjoError::PoolFull));
    assert_eq!(ctx, before);
}

#[test]
fn join_refuses_a_member_and_leaves_the_count_alone() {
    let mut again = join_as(forming_pool(3, 1), id(1));
    let before = again.clone();
    assert_eq!(join_pool(&mut again, 2, vec![]), Err(AjoError::MemberExists));
    assert_eq!(again.pool.member_count, 1);
    assert_eq!(again, before);
}

#[test]
fn join_refuses_a_position_out_of_range() {
    let mut ctx = join_as(forming_pool(3, 1), id(2));
    let before = ctx.clone();
    assert_eq!(join_pool(&mut ctx, 0, vec![]), Err(AjoError::InvalidPayoutPosition));
    assert_eq!(join_pool(&mut ctx, 4, vec![]), Err(AjoError::InvalidPayoutPosition));
    assert_eq!(ctx, before);
}

#[test]
fn join_refuses_a_position_that_is_taken() {
    let mut second = join_as(forming_pool(4, 2), id(2));
    join_pool(&mut second, 4, vec![]).unwrap();
    for taken in [2u8, 4u8] {
        let mut ctx = join_as(second.pool.clone(), id(3));
        let before = ctx.clone();
        assert_eq!(join_pool(&mut ctx, taken, vec![]), Err(AjoError::PayoutPositionTaken));
        assert_eq!(ctx, before);
    }
}

#[test]
fn join_by_a_member_at_a_taken_position_is_refused_as_member() {
    let mut ctx = join_as(forming_pool(3, 1), id(1));
    assert_eq!(join_pool(&mut ctx, 1, vec![]), Err(AjoError::MemberExists));
}

#[test]
fn a_refused_join_can_be_replayed_without_drift() {
    let mut ctx = join_as(forming_pool(3, 2), id(2));
    let before = ctx.clone();
    for _ in 0..25 {
        assert_eq!(
            join_pool(&mut ctx, 2, vec![String::from("again")]),
            Err(AjoError::PayoutPositionTaken)
        );
        assert_eq!(ctx, before);
    }
    assert_eq!(join_pool(&mut ctx, 1, vec![]), Ok(()));
}

#[test]
fn membership_and_positions_are_looked_up() {
    let pool = forming_pool(3, 2);
    assert!(is_member(&pool.members, &id(1)));
    assert!(!is_member(&pool.members, &id(2)));
    assert!(!is_member(&Vec::new(), &id(1)));
    assert!(is_position_taken(&pool.payout_order, 2));
    assert!(!is_position_taken(&pool.payout_order, 1));
    assert!(!is_position_taken(&Vec::new(), 1));
}

#[test]
fn identities_compare_by_all_their_bytes() {
    let mut bytes = [5u8; 32];
    let a = Identity::new(bytes);
    assert_eq!(a, id(5));
    bytes[31] = 6;
    let b = Identity::new(bytes);
    assert_ne!(a, b);
    assert_eq!(b.to_bytes(), bytes);
    assert_eq!(Identity::default(), id(0));
}

#[test]
fn records_start_out_zeroed() {
    assert_eq!(CurrencyType::default(), CurrencyType::SOL);
    assert_eq!(CyclePeriod::default(), CyclePeriod::Monthly);
    let pool = PoolAccount::default();
    assert_eq!(pool.creator, id(0));
    assert_eq!(pool.member_count, 0);
    assert!(pool.members.is_empty());
    assert!(pool.payout_order.is_empty());
    assert!(!pool.active);
    assert_eq!(pool.cycle_period, CyclePeriod::Monthly);
    let member = MemberAccount::default();
    assert_eq!(member.wallet, id(0));
    assert!(member.questionnaire_answers.is_empty());
    assert_eq!(VaultAccount::default(), VaultAccount { pool: id(0), amount: 0, bump: 0 });
}
