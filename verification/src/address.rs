//! Where the records of a pool are kept.
//!
//! Every record lives at an address derived from a fixed salt and from what
//! identifies the record: a pool from its founder and its number, a member
//! record from the pool and the member's wallet, a vault from the pool. So a
//! founder and a number name one pool, a pool and a wallet one member record,
//! and a pool one vault.

use vstd::prelude::*;
use vstd::bytes::{lemma_auto_spec_u64_to_from_le_bytes, spec_u64_to_le_bytes, u64_to_le_bytes};
use anchor_lang::prelude::Pubkey;
use crate::identity::Identity;

verus! {

/// The salt of a pool's address: the letters of "pool".
pub open spec fn pool_salt() -> Seq<u8> {
    seq![0x70u8, 0x6fu8, 0x6fu8, 0x6cu8]
}

/// The salt of a member record's address: the letters of "member".
pub open spec fn member_salt() -> Seq<u8> {
    seq![0x6du8, 0x65u8, 0x6du8, 0x62u8, 0x65u8, 0x72u8]
}

/// The salt of a vault's address: the letters of "vault".
pub open spec fn vault_salt() -> Seq<u8> {
    seq![0x76u8, 0x61u8, 0x75u8, 0x6cu8, 0x74u8]
}

/// The seeds of the pool that `creator` founded under `pool_id`: the salt,
/// the founder, and the number in eight bytes, lowest first.
pub open spec fn pool_seeds(creator: Identity, pool_id: u64) -> Seq<Seq<u8>> {
    seq![pool_salt(), creator.bytes@, spec_u64_to_le_bytes(pool_id)]
}

/// The seeds of the record that the pool at `pool_key` keeps for `wallet`.
pub open spec fn member_seeds(pool_key: Identity, wallet: Identity) -> Seq<Seq<u8>> {
    seq![member_salt(), pool_key.bytes@, wallet.bytes@]
}

/// The seeds of the vault of the pool at `pool_key`.
pub open spec fn vault_seeds(pool_key: Identity) -> Seq<Seq<u8>> {
    seq![vault_salt(), pool_key.bytes@]
}

/// The bytes of each seed of `seeds`.
pub open spec fn seed_bytes(seeds: Seq<Vec<u8>>) -> Seq<Seq<u8>> {
    seeds.map_values(|seed: Vec<u8>| seed@)
}

/// An address and its bump as plain bytes.
pub open spec fn address_bytes(found: Option<(Identity, u8)>) -> Option<(Seq<u8>, u8)> {
    match found {
        Some((address, bump)) => Some((address.bytes@, bump)),
        None => None,
    }
}

/// The address that the program `program` owns under `seeds`, with the bump
/// that leads to it, if there is one.
pub uninterp spec fn program_address(seeds: Seq<Seq<u8>>, program: Seq<u8>) -> Option<(Seq<u8>, u8)>;

/// Calls `Pubkey::try_find_program_address` of `anchor_lang`. Believed of it:
/// what it returns depends on the seeds' bytes and the program's bytes alone.
/// It is a digest of them and of the first bump, counting down from 255,
/// whose digest is no point of the curve; nothing here says which address
/// that is.
#[verifier::external_body]
fn find_program_address(seeds: &Vec<Vec<u8>>, program: &Identity) -> (found: Option<(Identity, u8)>)
    ensures
        address_bytes(found) == program_address(seed_bytes(seeds@), program.bytes@),
{
    let parts: Vec<&[u8]> = seeds.iter().map(|seed| seed.as_slice()).collect();
    let program_id = Pubkey::new_from_array(program.bytes);
    Pubkey::try_find_program_address(&parts, &program_id).map(
        |(address, bump)| (Identity { bytes: address.to_bytes() }, bump),
    )
}

/// The bytes of `id` as a vector.
fn bytes_of(id: &Identity) -> (bytes: Vec<u8>)
    ensures
        bytes@ == id.bytes@,
{
    let mut bytes: Vec<u8> = Vec::new();
    let mut i: usize = 0;
    while i < 32
        invariant
            i <= 32,
            bytes@ == id.bytes@.take(i as int),
        decreases 32 - i,
    {
        bytes.push(id.bytes[i]);
        assert(id.bytes@.take(i + 1) =~= id.bytes@.take(i as int).push(id.bytes@[i as int]));
        i += 1;
    }
    assert(id.bytes@.take(32) =~= id.bytes@);
    bytes
}

/// The address, with its bump, of the pool that `creator` founded under
/// `pool_id` in the program `program`; `None` if there is no such address.
pub fn pool_address(program: &Identity, creator: &Identity, pool_id: u64) -> (found: Option<
    (Identity, u8),
>)
    ensures
        address_bytes(found) == program_address(pool_seeds(*creator, pool_id), program.bytes@),
{
    let mut seeds: Vec<Vec<u8>> = Vec::new();
    seeds.push(vec![0x70u8, 0x6fu8, 0x6fu8, 0x6cu8]);
    seeds.push(bytes_of(creator));
    seeds.push(u64_to_le_bytes(pool_id));
    assert(seeds@[0]@ =~= pool_salt());
    assert(seed_bytes(seeds@) =~= pool_seeds(*creator, pool_id));
    find_program_address(&seeds, program)
}

/// The address, with its bump, of the record that the pool at `pool_key`
/// keeps for `wallet`; `None` if there is no such address.
pub fn member_address(program: &Identity, pool_key: &Identity, wallet: &Identity) -> (found: Option<
    (Identity, u8),
>)
    ensures
        address_bytes(found) == program_address(
            member_seeds(*pool_key, *wallet),
            program.bytes@,
        ),
{
    let mut seeds: Vec<Vec<u8>> = Vec::new();
    seeds.push(vec![0x6du8, 0x65u8, 0x6du8, 0x62u8, 0x65u8, 0x72u8]);
    seeds.push(bytes_of(pool_key));
    seeds.push(bytes_of(wallet));
    assert(seeds@[0]@ =~= member_salt());
    assert(seed_bytes(seeds@) =~= member_seeds(*pool_key, *wallet));
    find_program_address(&seeds, program)
}

/// The address, with its bump, of the vault of the pool at `pool_key`;
/// `None` if there is no such address.
pub fn vault_address(program: &Identity, pool_key: &Identity) -> (found: Option<(Identity, u8)>)
    ensures
        address_bytes(found) == program_address(vault_seeds(*pool_key), program.bytes@),
{
    let mut seeds: Vec<Vec<u8>> = Vec::new();
    seeds.push(vec![0x76u8, 0x61u8, 0x75u8, 0x6cu8, 0x74u8]);
    seeds.push(bytes_of(pool_key));
    assert(seeds@[0]@ =~= vault_salt());
    assert(seed_bytes(seeds@) =~= vault_seeds(*pool_key));
    find_program_address(&seeds, program)
}

/// Two identities with the same bytes are the same identity.
proof fn lemma_same_bytes(a: Identity, b: Identity)
    requires
        a.bytes@ == b.bytes@,
    ensures
        a == b,
{
    assert(a.bytes =~= b.bytes);
}

/// Pools of different founders, or of one founder under different numbers,
/// have different seeds.
pub proof fn law_pool_seeds_name_one_pool(
    creator: Identity,
    pool_id: u64,
    other_creator: Identity,
    other_pool_id: u64,
)
    requires
        pool_seeds(creator, pool_id) == pool_seeds(other_creator, other_pool_id),
    ensures
        creator == other_creator,
        pool_id == other_pool_id,
{
    let a = pool_seeds(creator, pool_id);
    let b = pool_seeds(other_creator, other_pool_id);
    assert(a[1] == b[1] && a[2] == b[2]);
    lemma_same_bytes(creator, other_creator);
    lemma_auto_spec_u64_to_from_le_bytes();
}

/// Member records of different pools, or of different wallets in one pool,
/// have different seeds.
pub proof fn law_member_seeds_name_one_record(
    pool_key: Identity,
    wallet: Identity,
    other_pool_key: Identity,
    other_wallet: Identity,
)
    requires
        member_seeds(pool_key, wallet) == member_seeds(other_pool_key, other_wallet),
    ensures
        pool_key == other_pool_key,
        wallet == other_wallet,
{
    let a = member_seeds(pool_key, wallet);
    let b = member_seeds(other_pool_key, other_wallet);
    assert(a[1] == b[1] && a[2] == b[2]);
    lemma_same_bytes(pool_key, other_pool_key);
    lemma_same_bytes(wallet, other_wallet);
}

/// Vaults of different pools have different seeds.
pub proof fn law_vault_seeds_name_one_vault(pool_key: Identity, other_pool_key: Identity)
    requires
        vault_seeds(pool_key) == vault_seeds(other_pool_key),
    ensures
        pool_key == other_pool_key,
{
    let a = vault_seeds(pool_key);
    let b = vault_seeds(other_pool_key);
    assert(a[1] == b[1]);
    lemma_same_bytes(pool_key, other_pool_key);
}

/// The seeds of a pool, of a member record and of a vault are never the
/// same, whatever they are derived from.
pub proof fn law_kinds_of_seeds_differ(
    creator: Identity,
    pool_id: u64,
    pool_key: Identity,
    wallet: Identity,
    vault_pool_key: Identity,
)
    ensures
        pool_seeds(creator, pool_id) != member_seeds(pool_key, wallet),
        pool_seeds(creator, pool_id) != vault_seeds(vault_pool_key),
        member_seeds(pool_key, wallet) != vault_seeds(vault_pool_key),
{
    assert(pool_seeds(creator, pool_id)[0].len() == 4);
    assert(member_seeds(pool_key, wallet)[0].len() == 6);
    assert(vault_seeds(vault_pool_key)[0].len() == 5);
}

} // verus!
