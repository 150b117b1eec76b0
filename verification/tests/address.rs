use ajo::{member_address, pool_address, vault_address, Identity};
use anchor_lang::prelude::Pubkey;

fn at(n: u8) -> Identity {
    Identity::new([n; 32])
}

fn derived(seeds: &[&[u8]], program: &Identity) -> Option<(Identity, u8)> {
    let program_id = Pubkey::new_from_array(program.to_bytes());
    Pubkey::try_find_program_address(seeds, &program_id)
        .map(|(address, bump)| (Identity::new(address.to_bytes()), bump))
}

#[test]
fn pool_address_comes_from_salt_founder_and_number() {
    let program = at(9);
    let founder = at(1);
    let number: u64 = 0x0102_0304_0506_0708;
    let found = pool_address(&program, &founder, number);
    assert!(found.is_some());
    assert_eq!(
        found,
        derived(&[b"pool", &founder.to_bytes(), &number.to_le_bytes()], &program)
    );
    assert_ne!(found.unwrap().0, founder);
    assert_ne!(found.unwrap().0, program);
}

#[test]
fn member_address_comes_from_salt_pool_and_wallet() {
    let program = at(9);
    let found = member_address(&program, &at(20), &at(2));
    assert!(found.is_some());
    assert_eq!(found, derived(&[b"member", &at(20).to_bytes(), &at(2).to_bytes()], &program));
    assert_ne!(found, member_address(&program, &at(2), &at(20)));
}

#[test]
fn vault_address_comes_from_salt_and_pool() {
    let program = at(9);
    let found = vault_address(&program, &at(20));
    assert!(found.is_some());
    assert_eq!(found, derived(&[b"vault", &at(20).to_bytes()], &program));
}

#[test]
fn different_pools_are_kept_at_different_addresses() {
    let program = at(9);
    let first = pool_address(&program, &at(1), 1).unwrap();
    assert_ne!(first, pool_address(&program, &at(1), 2).unwrap());
    assert_ne!(first, pool_address(&program, &at(2), 1).unwrap());
    assert_ne!(first, pool_address(&at(8), &at(1), 1).unwrap());
    assert_eq!(first, pool_address(&program, &at(1), 1).unwrap());
}

#[test]
fn the_records_of_one_pool_are_kept_apart() {
    let program = at(9);
    let (pool, _) = pool_address(&program, &at(1), 1).unwrap();
    let (vault, _) = vault_address(&program, &pool).unwrap();
    let (founder, _) = member_address(&program, &pool, &at(1)).unwrap();
    let (joiner, _) = member_address(&program, &pool, &at(2)).unwrap();
    assert_ne!(vault, pool);
    assert_ne!(founder, joiner);
    assert_ne!(founder, vault);
}
