use ajo::{
    contribution_transfer, create_pool, execute_payout, join_pool, make_contribution,
    payout_transfer, AjoError, CreatePool, CurrencyType, CyclePeriod, ExecutePayout, Identity,
    JoinPool, MakeContribution, MemberAccount, PoolAccount, Transfer, VaultAccount,
};

const MONTH: i64 = 30 * 86_400;

fn wallet(n: u8) -> Identity {
    Identity::new([n; 32])
}

#[test]
fn three_members_form_contribute_and_pay_out() {
    let pool_key = wallet(200);
    let vault_key = wallet(201);
    let mut vault_balance: u64 = 0;

    let mut creation = CreatePool {
        pool: PoolAccount::default(),
        member: MemberAccount::default(),
        vault: VaultAccount::default(),
        creator: wallet(1),
        pool_key,
        member_bump: 255,
        vault_bump: 254,
    };
    assert_eq!(
        create_pool(&mut creation, 1, CurrencyType::SOL, 10, 3, 3, CyclePeriod::Monthly, 1, 253),
        Ok(())
    );
    let vault = creation.vault;
    let mut records = vec![creation.member];
    let mut pool = creation.pool;

    for (joiner, position) in [(2u8, 2u8), (3u8, 3u8)] {
        assert!(!pool.active);
        let mut join = JoinPool {
            pool,
            member: MemberAccount::default(),
            user: wallet(joiner),
            pool_key,
            member_bump: 252,
        };
        assert_eq!(join_pool(&mut join, position, vec![String::from("ready")]), Ok(()));
        records.push(join.member);
        pool = join.pool;
    }
    assert!(pool.active);
    assert_eq!(pool.member_count, 3);
    assert_eq!(pool.payout_order, vec![(wallet(1), 1), (wallet(2), 2), (wallet(3), 3)]);

    let start = 1_700_000_000;
    for (n, record) in records.iter_mut().enumerate() {
        let now = start + (n as i64) * MONTH;
        let mut contribution = MakeContribution {
            pool,
            member: record.clone(),
            user: record.wallet,
            vault: vault_key,
            user_token: None,
            vault_token: None,
            token_program: None,
        };
        let order = contribution_transfer(&contribution, now).unwrap();
        assert_eq!(order, Transfer::Native { from: record.wallet, to: vault_key, amount: 10 });
        vault_balance += order.amount();
        assert_eq!(make_contribution(&mut contribution, now, Ok(())), Ok(()));
        assert_eq!(contribution.member.contributions_made, 1);
        *record = contribution.member;
        pool = contribution.pool;
    }
    assert_eq!(vault_balance, 30);
    assert_eq!(pool.last_contribution_time, start + 2 * MONTH);

    let mut payout = ExecutePayout {
        pool,
        recipient: records[0].clone(),
        recipient_wallet: wallet(1),
        vault,
        vault_key,
        vault_token: None,
        recipient_token: None,
        token_program: None,
    };
    let order = payout_transfer(&payout).unwrap();
    assert_eq!(order, Transfer::Native { from: vault_key, to: wallet(1), amount: 30 });
    vault_balance -= order.amount();
    assert_eq!(execute_payout(&mut payout, Ok(())), Ok(()));
    assert_eq!(vault_balance, 0);
    assert_eq!(payout.pool.current_cycle, 1);
    assert!(payout.recipient.has_collected);

    let after_first = payout.clone();
    assert_eq!(payout_transfer(&payout), Err(AjoError::InvalidPayoutRecipient));
    assert_eq!(execute_payout(&mut payout, Ok(())), Err(AjoError::InvalidPayoutRecipient));
    assert_eq!(payout, after_first);
    assert_eq!(payout.pool.current_cycle, 1);
}

#[test]
fn a_pool_runs_to_its_last_cycle_and_then_stops() {
    let mut creation = CreatePool {
        pool: PoolAccount::default(),
        member: MemberAccount::default(),
        vault: VaultAccount::default(),
        creator: wallet(1),
        pool_key: wallet(200),
        member_bump: 0,
        vault_bump: 0,
    };
    create_pool(&mut creation, 9, CurrencyType::SOL, 5, 2, 2, CyclePeriod::Weekly, 2, 0).unwrap();
    let mut join = JoinPool {
        pool: creation.pool,
        member: MemberAccount::default(),
        user: wallet(2),
        pool_key: wallet(200),
        member_bump: 0,
    };
    join_pool(&mut join, 1, vec![]).unwrap();
    assert_eq!(join.pool.payout_order, vec![(wallet(2), 1), (wallet(1), 2)]);
    let mut pool = join.pool;
    let mut paid = Vec::new();
    for (turn, record) in [(wallet(2), join.member), (wallet(1), creation.member)] {
        let mut payout = ExecutePayout {
            pool,
            recipient: record,
            recipient_wallet: turn,
            vault: creation.vault,
            vault_key: wallet(201),
            vault_token: None,
            recipient_token: None,
            token_program: None,
        };
        assert_eq!(execute_payout(&mut payout, Ok(())), Ok(()));
        paid.push(payout.recipient);
        pool = payout.pool;
    }
    assert_eq!(pool.current_cycle, 2);
    assert!(paid.iter().all(|record| record.has_collected));
    let mut over = ExecutePayout {
        pool,
        recipient: paid[0].clone(),
        recipient_wallet: wallet(2),
        vault: creation.vault,
        vault_key: wallet(201),
        vault_token: None,
        recipient_token: None,
        token_program: None,
    };
    assert_eq!(execute_payout(&mut over, Ok(())), Err(AjoError::PoolCompleted));
    assert_eq!(over.pool.current_cycle, 2);
}
