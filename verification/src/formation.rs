//! Forming a pool: the founder creates it, the others join, and the join
//! that fills the last seat activates it.

use vstd::prelude::*;
use crate::error::AjoError;
use crate::identity::Identity;
use crate::order::{sort_by_position, sorted_by_position};
use crate::lifecycle::{join_step, law_creation, law_join, outcome, pool_after};
use crate::state::{
    position_taken, texts, CurrencyType, CyclePeriod, MemberAccount, MemberState, PoolAccount,
    PoolState, Slot, VaultAccount, MAX_MEMBERS, MIN_MEMBERS,
};

verus! {

/// What the creation of a pool works on: the three records to be filled, the
/// founder, and where the records are kept.
#[derive(Clone, Debug, PartialEq, Eq)]
pub struct CreatePool {
    pub pool: PoolAccount,
    pub member: MemberAccount,
    pub vault: VaultAccount,
    /// The founder, who submits the operation.
    pub creator: Identity,
    /// The address of the pool record.
    pub pool_key: Identity,
    /// The bump of the founder's member record.
    pub member_bump: u8,
    /// The bump of the vault.
    pub vault_bump: u8,
}

/// What a join works on: the pool, the record to be filled for the joiner,
/// and the joiner.
#[derive(Clone, Debug, PartialEq, Eq)]
pub struct JoinPool {
    pub pool: PoolAccount,
    pub member: MemberAccount,
    /// The joiner, who submits the operation.
    pub user: Identity,
    /// The address of the pool record.
    pub pool_key: Identity,
    /// The bump of the joiner's member record.
    pub member_bump: u8,
}

/// Why a pool with these parameters cannot be created, if it cannot. The
/// group size is looked at first, then the amount, the number of cycles and
/// the founder's position.
pub open spec fn create_refusal(
    contribution_amount: u64,
    total_members: u8,
    total_cycles: u8,
    creator_position: u8,
) -> Option<AjoError> {
    if total_members > MAX_MEMBERS || total_members < MIN_MEMBERS {
        Some(AjoError::InvalidPoolSize)
    } else if contribution_amount == 0 {
        Some(AjoError::InvalidContribution)
    } else if total_cycles == 0 {
        Some(AjoError::InvalidCyclePeriod)
    } else if creator_position == 0 || creator_position > total_members {
        Some(AjoError::InvalidPayoutPosition)
    } else {
        None
    }
}

/// The pool as its creation leaves it: forming, with the founder as its only
/// member.
pub open spec fn created_pool(
    creator: Identity,
    pool_id: u64,
    currency: CurrencyType,
    contribution_amount: u64,
    total_members: u8,
    total_cycles: u8,
    cycle_period: CyclePeriod,
    creator_position: u8,
    bump: u8,
) -> PoolState {
    PoolState {
        creator,
        pool_id,
        currency,
        contribution_amount,
        total_members,
        member_count: 1,
        members: seq![creator],
        payout_order: seq![(creator, creator_position)],
        current_cycle: 0,
        total_cycles,
        cycle_period,
        last_contribution_time: 0,
        active: false,
        bump,
    }
}

/// The record of a member who has just entered a pool: nothing paid,
/// nothing collected.
pub open spec fn new_member(
    wallet: Identity,
    pool_key: Identity,
    payout_position: u8,
    answers: Seq<Seq<char>>,
    bump: u8,
) -> MemberState {
    MemberState {
        wallet,
        pool: pool_key,
        has_collected: false,
        contributions_made: 0,
        payout_position,
        questionnaire_answers: answers,
        bump,
    }
}

/// Why `user` cannot join `pool` at `position`, if it cannot. The pool's
/// state is looked at first (active, then full), then the joiner, then the
/// position (out of range, then taken).
pub open spec fn join_refusal(pool: PoolState, user: Identity, position: u8) -> Option<AjoError> {
    if pool.active {
        Some(AjoError::PoolActive)
    } else if pool.member_count >= pool.total_members {
        Some(AjoError::PoolFull)
    } else if pool.members.contains(user) {
        Some(AjoError::MemberExists)
    } else if position == 0 || position > pool.total_members {
        Some(AjoError::InvalidPayoutPosition)
    } else if position_taken(pool.payout_order, position) {
        Some(AjoError::PayoutPositionTaken)
    } else {
        None
    }
}

/// The pool after `user` has joined it at `position`. If that fills the
/// pool, it is active from here on and its payout order is sorted.
pub open spec fn joined_pool(pool: PoolState, user: Identity, position: u8) -> PoolState {
    let order = pool.payout_order.push((user, position));
    let full = pool.member_count + 1 == pool.total_members;
    PoolState {
        member_count: (pool.member_count + 1) as u8,
        members: pool.members.push(user),
        payout_order: if full {
            sorted_by_position(order)
        } else {
            order
        },
        active: full,
        ..pool
    }
}

/// Whether `who` is among `members`.
pub fn is_member(members: &Vec<Identity>, who: &Identity) -> (found: bool)
    ensures
        found == members@.contains(*who),
{
    let mut i: usize = 0;
    while i < members.len()
        invariant
            i <= members.len(),
            forall|k: int| 0 <= k < i ==> members@[k] != *who,
        decreases members.len() - i,
    {
        if members[i] == *who {
            return true;
        }
        i += 1;
    }
    false
}

/// Whether some entry of `order` holds `position`.
pub fn is_position_taken(order: &Vec<Slot>, position: u8) -> (taken: bool)
    ensures
        taken == position_taken(order@, position),
{
    let mut i: usize = 0;
    while i < order.len()
        invariant
            i <= order.len(),
            forall|k: int| 0 <= k < i ==> (#[trigger] order@[k]).1 != position,
        decreases order.len() - i,
    {
        if order[i].1 == position {
            return true;
        }
        i += 1;
    }
    false
}

/// Creates a pool with its founder's member record and its vault.
///
/// Refused, with nothing changed, exactly when [`create_refusal`] names a
/// reason. Otherwise the three records are filled: the pool as
/// [`created_pool`] says, the founder's record as a new member at the
/// founder's position, and the vault empty and bound to the pool.
pub fn create_pool(
    ctx: &mut CreatePool,
    pool_id: u64,
    currency: CurrencyType,
    contribution_amount: u64,
    total_members: u8,
    total_cycles: u8,
    cycle_period: CyclePeriod,
    creator_position: u8,
    bump: u8,
) -> (result: Result<(), AjoError>)
    ensures
        match create_refusal(contribution_amount, total_members, total_cycles, creator_position) {
            Some(reason) => result == Err::<(), AjoError>(reason) && *final(ctx) == *old(ctx),
            None => {
                &&& result == Ok::<(), AjoError>(())
                &&& final(ctx).pool@ == created_pool(
                    old(ctx).creator,
                    pool_id,
                    currency,
                    contribution_amount,
                    total_members,
                    total_cycles,
                    cycle_period,
                    creator_position,
                    bump,
                )
                &&& final(ctx).member@ == new_member(
                    old(ctx).creator,
                    old(ctx).pool_key,
                    creator_position,
                    Seq::empty(),
                    old(ctx).member_bump,
                )
                &&& final(ctx).vault == (VaultAccount {
                    pool: old(ctx).pool_key,
                    amount: 0,
                    bump: old(ctx).vault_bump,
                })
                &&& final(ctx).creator == old(ctx).creator
                &&& final(ctx).pool_key == old(ctx).pool_key
                &&& final(ctx).member_bump == old(ctx).member_bump
                &&& final(ctx).vault_bump == old(ctx).vault_bump
                &&& final(ctx).pool@.well_formed()
                &&& final(ctx).member@.belongs_to(final(ctx).pool@, old(ctx).pool_key)
            },
        },
{
    if total_members > MAX_MEMBERS || total_members < MIN_MEMBERS {
        return Err(AjoError::InvalidPoolSize);
    }
    if contribution_amount == 0 {
        return Err(AjoError::InvalidContribution);
    }
    if total_cycles == 0 {
        return Err(AjoError::InvalidCyclePeriod);
    }
    if creator_position == 0 || creator_position > total_members {
        return Err(AjoError::InvalidPayoutPosition);
    }
    let creator = ctx.creator;
    let mut members: Vec<Identity> = Vec::new();
    members.push(creator);
    let mut payout_order: Vec<Slot> = Vec::new();
    payout_order.push((creator, creator_position));
    ctx.pool = PoolAccount {
        creator,
        pool_id,
        currency,
        contribution_amount,
        total_members,
        member_count: 1,
        members,
        payout_order,
        current_cycle: 0,
        total_cycles,
        cycle_period,
        last_contribution_time: 0,
        active: false,
        bump,
    };
    ctx.member = MemberAccount {
        wallet: creator,
        pool: ctx.pool_key,
        has_collected: false,
        contributions_made: 0,
        payout_position: creator_position,
        questionnaire_answers: Vec::new(),
        bump: ctx.member_bump,
    };
    ctx.vault = VaultAccount { pool: ctx.pool_key, amount: 0, bump: ctx.vault_bump };
    proof {
        assert(ctx.pool@.members =~= seq![creator]);
        assert(ctx.pool@.payout_order =~= seq![(creator, creator_position)]);
        assert(texts(ctx.member.questionnaire_answers@) =~= Seq::empty());
        law_creation(
            creator,
            ctx.pool_key,
            pool_id,
            currency,
            contribution_amount,
            total_members,
            total_cycles,
            cycle_period,
            creator_position,
            bump,
            ctx.member_bump,
        );
    }
    Ok(())
}

/// Lets the submitting user into a forming pool at the position it asks for.
///
/// Refused, with nothing changed, exactly when [`join_refusal`] names a
/// reason. Otherwise the pool becomes what [`joined_pool`] says, and the
/// joiner's record is filled as a new member with the position and the
/// answers given.
pub fn join_pool(ctx: &mut JoinPool, payout_position: u8, questionnaire_answers: Vec<String>) -> (result:
    Result<(), AjoError>)
    ensures
        result == outcome(old(ctx).pool@, join_step(*old(ctx), payout_position)),
        final(ctx).pool@ == pool_after(old(ctx).pool@, join_step(*old(ctx), payout_position)),
        match join_refusal(old(ctx).pool@, old(ctx).user, payout_position) {
            Some(reason) => result == Err::<(), AjoError>(reason) && *final(ctx) == *old(ctx),
            None => {
                &&& result == Ok::<(), AjoError>(())
                &&& final(ctx).pool@ == joined_pool(old(ctx).pool@, old(ctx).user, payout_position)
                &&& final(ctx).member@ == new_member(
                    old(ctx).user,
                    old(ctx).pool_key,
                    payout_position,
                    texts(questionnaire_answers@),
                    old(ctx).member_bump,
                )
                &&& final(ctx).user == old(ctx).user
                &&& final(ctx).pool_key == old(ctx).pool_key
                &&& final(ctx).member_bump == old(ctx).member_bump
                &&& old(ctx).pool@.well_formed() ==> {
                    &&& final(ctx).pool@.well_formed()
                    &&& final(ctx).member@.belongs_to(final(ctx).pool@, old(ctx).pool_key)
                }
            },
        },
{
    if ctx.pool.active {
        return Err(AjoError::PoolActive);
    }
    if ctx.pool.member_count >= ctx.pool.total_members {
        return Err(AjoError::PoolFull);
    }
    if is_member(&ctx.pool.members, &ctx.user) {
        return Err(AjoError::MemberExists);
    }
    if payout_position == 0 || payout_position > ctx.pool.total_members {
        return Err(AjoError::InvalidPayoutPosition);
    }
    if is_position_taken(&ctx.pool.payout_order, payout_position) {
        return Err(AjoError::PayoutPositionTaken);
    }
    let user = ctx.user;
    proof {
        if ctx.pool@.well_formed() {
            law_join(ctx.pool@, ctx.pool_key, user, payout_position);
        }
    }
    ctx.pool.members.push(user);
    ctx.pool.payout_order.push((user, payout_position));
    ctx.pool.member_count = ctx.pool.member_count + 1;
    ctx.member = MemberAccount {
        wallet: user,
        pool: ctx.pool_key,
        has_collected: false,
        contributions_made: 0,
        payout_position,
        questionnaire_answers,
        bump: ctx.member_bump,
    };
    if ctx.pool.member_count == ctx.pool.total_members {
        let sorted = sort_by_position(&ctx.pool.payout_order);
        ctx.pool.payout_order = sorted;
        ctx.pool.active = true;
    }
    Ok(())
}

} // verus!
