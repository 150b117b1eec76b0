//! The life of a pool as a whole: what every operation preserves, and what
//! therefore holds after any history of operations.

use vstd::prelude::*;
use crate::contribution::{
    contribution_refusal, member_after_contribution, pool_after_contribution, MakeContribution,
};
use crate::custody::Transfer;
use crate::error::AjoError;
use crate::formation::{
    create_refusal, created_pool, join_refusal, joined_pool, new_member, JoinPool,
};
use crate::identity::Identity;
use crate::order::{
    lemma_full_order_ranks, lemma_sorted_by_position, lemma_sorted_keeps_distinct,
    sorted_by_position,
};
use crate::payout::{member_after_payout, payout_refusal, pool_after_payout, ExecutePayout};
use crate::state::{
    ascending, position_taken, CurrencyType, CyclePeriod, MemberState, PoolState, Slot,
};

verus! {

/// One operation submitted to an existing pool, together with what the
/// custodian made of the transfer that it needs.
pub enum Operation {
    /// `user` asks to join at `position`.
    Join { user: Identity, position: u8 },
    /// The holder of `member` contributes at time `now`.
    Contribute { member: MemberState, now: i64, transfer: Result<(), AjoError> },
    /// A payout to `wallet` is asked for, named through a member record kept
    /// for `record_wallet`.
    Payout { record_wallet: Identity, wallet: Identity, transfer: Result<(), AjoError> },
}

/// Why `pool` refuses `op`, if it does: for a reason of its own or, failing
/// that, because the transfer did not go through.
pub open spec fn refusal(pool: PoolState, op: Operation) -> Option<AjoError> {
    match op {
        Operation::Join { user, position } => join_refusal(pool, user, position),
        Operation::Contribute { member, now, transfer } => match contribution_refusal(
            pool,
            member,
            now,
        ) {
            Some(reason) => Some(reason),
            None => match transfer {
                Err(reason) => Some(reason),
                Ok(_) => None,
            },
        },
        Operation::Payout { record_wallet, wallet, transfer } => match payout_refusal(
            pool,
            record_wallet,
            wallet,
        ) {
            Some(reason) => Some(reason),
            None => match transfer {
                Err(reason) => Some(reason),
                Ok(_) => None,
            },
        },
    }
}

/// The pool after `op` was submitted to it: unchanged if the operation was
/// refused, and else as the operation leaves it.
pub open spec fn pool_after(pool: PoolState, op: Operation) -> PoolState {
    if refusal(pool, op).is_some() {
        pool
    } else {
        match op {
            Operation::Join { user, position } => joined_pool(pool, user, position),
            Operation::Contribute { now, .. } => pool_after_contribution(pool, now),
            Operation::Payout { .. } => pool_after_payout(pool),
        }
    }
}

/// The result that tells the submitter of an operation how it went.
pub open spec fn outcome(pool: PoolState, op: Operation) -> Result<(), AjoError> {
    match refusal(pool, op) {
        Some(reason) => Err(reason),
        None => Ok(()),
    }
}

/// The join that `ctx` submits for `position`.
pub open spec fn join_step(ctx: JoinPool, position: u8) -> Operation {
    Operation::Join { user: ctx.user, position }
}

/// The contribution that `ctx` submits at time `now`, where the custodian
/// reports `transfer`. A transfer that cannot even be formed counts as failed.
pub open spec fn contribution_step(
    ctx: MakeContribution,
    now: i64,
    transfer: Result<(), AjoError>,
) -> Operation {
    Operation::Contribute {
        member: ctx.member@,
        now,
        transfer: match ctx.required_transfer(now) {
            Err(reason) => Err(reason),
            Ok(_) => transfer,
        },
    }
}

/// The payout that `ctx` submits, where the custodian reports `transfer`. A
/// transfer that cannot even be formed counts as failed.
pub open spec fn payout_step(ctx: ExecutePayout, transfer: Result<(), AjoError>) -> Operation {
    Operation::Payout {
        record_wallet: ctx.recipient.wallet,
        wallet: ctx.recipient_wallet,
        transfer: match ctx.required_transfer() {
            Err(reason) => Err(reason),
            Ok(_) => transfer,
        },
    }
}

/// The pool after the operations of `history` were submitted to it, one
/// after the other.
pub open spec fn pool_after_all(pool: PoolState, history: Seq<Operation>) -> PoolState
    decreases history.len(),
{
    if history.len() == 0 {
        pool
    } else {
        pool_after(pool_after_all(pool, history.drop_last()), history.last())
    }
}

/// What no operation ever changes in a pool.
pub open spec fn same_terms(before: PoolState, after: PoolState) -> bool {
    &&& after.creator == before.creator
    &&& after.pool_id == before.pool_id
    &&& after.currency == before.currency
    &&& after.contribution_amount == before.contribution_amount
    &&& after.total_members == before.total_members
    &&& after.total_cycles == before.total_cycles
    &&& after.cycle_period == before.cycle_period
    &&& after.bump == before.bump
}

/// A pool that was created with accepted parameters is well formed and
/// forming, has the founder as its only member, and the founder's record
/// holds the position that was asked for.
pub proof fn law_creation(
    creator: Identity,
    pool_key: Identity,
    pool_id: u64,
    currency: CurrencyType,
    contribution_amount: u64,
    total_members: u8,
    total_cycles: u8,
    cycle_period: CyclePeriod,
    creator_position: u8,
    bump: u8,
    member_bump: u8,
)
    requires
        create_refusal(contribution_amount, total_members, total_cycles, creator_position)
            is None,
    ensures
        ({
            let pool = created_pool(
                creator,
                pool_id,
                currency,
                contribution_amount,
                total_members,
                total_cycles,
                cycle_period,
                creator_position,
                bump,
            );
            let founder = new_member(
                creator,
                pool_key,
                creator_position,
                Seq::empty(),
                member_bump,
            );
            &&& pool.well_formed()
            &&& pool.member_count == 1
            &&& !pool.active
            &&& pool.members == seq![creator]
            &&& founder.payout_position == creator_position
            &&& founder.contributions_made == 0
            &&& !founder.has_collected
            &&& founder.belongs_to(pool, pool_key)
        }),
{
    let pool = created_pool(
        creator,
        pool_id,
        currency,
        contribution_amount,
        total_members,
        total_cycles,
        cycle_period,
        creator_position,
        bump,
    );
    assert(pool.members[0] == creator);
    assert(pool.payout_order[0] == (creator, creator_position));
}

/// An accepted join leaves a well-formed pool well formed, with one member
/// more and all earlier members in place. The pool is active afterwards
/// exactly if this join filled it, and then its payout order ascends by
/// position. The joiner's record belongs to the pool.
pub proof fn law_join(pool: PoolState, pool_key: Identity, user: Identity, position: u8)
    requires
        pool.well_formed(),
        join_refusal(pool, user, position) is None,
    ensures
        ({
            let after = joined_pool(pool, user, position);
            &&& after.well_formed()
            &&& same_terms(pool, after)
            &&& after.member_count == pool.member_count + 1
            &&& after.members == pool.members.push(user)
            &&& after.active <==> after.member_count == after.total_members
            &&& after.active ==> ascending(after.payout_order)
            &&& after.payout_order.to_multiset() == pool.payout_order.push(
                (user, position),
            ).to_multiset()
            &&& after.payout_order.contains((user, position))
            &&& forall|answers: Seq<Seq<char>>, bump: u8|
                (#[trigger] new_member(user, pool_key, position, answers, bump)).belongs_to(
                    after,
                    pool_key,
                )
        }),
{
    let after = joined_pool(pool, user, position);
    let entry: Slot = (user, position);
    let order = pool.payout_order.push(entry);
    let members = pool.members.push(user);
    assert(order[order.len() - 1] == entry);
    assert(members[members.len() - 1] == user);
    assert forall|i: int| 0 <= i < order.len() implies members.contains((#[trigger] order[i]).0)
        && 1 <= order[i].1 <= pool.total_members by {
        if i < pool.payout_order.len() {
            assert(order[i] == pool.payout_order[i]);
            let k = choose|k: int|
                0 <= k < pool.members.len() && pool.members[k] == pool.payout_order[i].0;
            assert(members[k] == order[i].0);
        }
    }
    assert forall|i: int, j: int| 0 <= i < j < order.len() implies order[i].0 != order[j].0
        && order[i].1 != order[j].1 by {
        assert(order[i] == pool.payout_order[i]);
        if j == order.len() - 1 {
            assert(pool.members.contains(pool.payout_order[i].0));
        } else {
            assert(order[j] == pool.payout_order[j]);
        }
    }
    assert forall|i: int, j: int| 0 <= i < j < members.len() implies members[i] != members[j] by {
        assert(members[i] == pool.members[i]);
        if j < pool.members.len() {
            assert(members[j] == pool.members[j]);
        }
    }
    assert(members[0] == pool.members[0]);
    if pool.member_count + 1 == pool.total_members {
        lemma_sorted_by_position(order);
        lemma_sorted_keeps_distinct(order);
        let sorted = sorted_by_position(order);
        assert forall|i: int| 0 <= i < sorted.len() implies members.contains(
            (#[trigger] sorted[i]).0,
        ) && 1 <= sorted[i].1 <= pool.total_members by {
            assert(sorted.contains(sorted[i]));
            assert(order.contains(sorted[i]));
            let k = choose|k: int| 0 <= k < order.len() && order[k] == sorted[i];
            assert(members.contains(order[k].0));
        }
        assert(order.contains(entry));
        assert(sorted.contains(entry));
    } else {
        assert forall|i: int| 0 <= i < order.len() implies (#[trigger] order[i]).0
            == members[i] by {
            if i < pool.payout_order.len() {
                assert(order[i] == pool.payout_order[i]);
                assert(members[i] == pool.members[i]);
            }
        }
        assert(order.contains(entry));
    }
}

/// In an active, well-formed pool the payout order lists the positions one
/// to the size of the group, each at its own index.
pub proof fn law_active_order(pool: PoolState, i: int)
    requires
        pool.well_formed(),
        pool.active,
        0 <= i < pool.total_members,
    ensures
        pool.payout_order.len() == pool.total_members,
        pool.payout_order[i].1 == i + 1,
{
    lemma_full_order_ranks(pool.payout_order, i);
}

/// In a well-formed pool no member has two turns: the payouts of two
/// different cycles go to two different members.
pub proof fn law_each_member_collects_once(pool: PoolState, cycle: int, other_cycle: int)
    requires
        pool.well_formed(),
        0 <= cycle < pool.payout_order.len(),
        0 <= other_cycle < pool.payout_order.len(),
        cycle != other_cycle,
    ensures
        pool.payout_order[cycle].0 != pool.payout_order[other_cycle].0,
        pool.payout_order[cycle].1 != pool.payout_order[other_cycle].1,
{
    if cycle < other_cycle {
        assert(pool.payout_order[cycle].0 != pool.payout_order[other_cycle].0);
    } else {
        assert(pool.payout_order[other_cycle].0 != pool.payout_order[cycle].0);
    }
}

/// Joining with an identity that is already a member is always refused, and
/// a forming pool with a free seat refuses it as an existing member.
pub proof fn law_member_joins_once(pool: PoolState, user: Identity, position: u8)
    requires
        pool.members.contains(user),
    ensures
        refusal(pool, (Operation::Join { user, position })) is Some,
        pool_after(pool, (Operation::Join { user, position })) == pool,
        !pool.active && pool.member_count < pool.total_members ==> join_refusal(
            pool,
            user,
            position,
        ) == Some(AjoError::MemberExists),
        pool.well_formed() && !pool.active ==> join_refusal(pool, user, position) == Some(
            AjoError::MemberExists,
        ),
{
}

/// Joining at a position that is already held is always refused, and when
/// nothing else stands against the join it is refused for that reason.
pub proof fn law_position_joins_once(pool: PoolState, user: Identity, position: u8)
    requires
        position_taken(pool.payout_order, position),
    ensures
        refusal(pool, (Operation::Join { user, position })) is Some,
        pool_after(pool, (Operation::Join { user, position })) == pool,
        !pool.active && pool.member_count < pool.total_members && !pool.members.contains(user)
            && 1 <= position <= pool.total_members ==> join_refusal(pool, user, position)
            == Some(AjoError::PayoutPositionTaken),
        pool.well_formed() && !pool.active && !pool.members.contains(user) ==> join_refusal(
            pool,
            user,
            position,
        ) == Some(AjoError::PayoutPositionTaken),
{
    if pool.well_formed() && !pool.active {
        let i = choose|i: int|
            0 <= i < pool.payout_order.len() && (#[trigger] pool.payout_order[i]).1 == position;
        assert(1 <= pool.payout_order[i].1 <= pool.total_members);
    }
}

/// A pool that is still forming takes no contribution, whoever offers it
/// and whenever, and stays as it is.
pub proof fn law_forming_pool_takes_nothing(
    ctx: MakeContribution,
    now: i64,
    transfer: Result<(), AjoError>,
)
    requires
        !ctx.pool.active,
    ensures
        ctx.required_transfer(now) == Err::<Transfer, AjoError>(AjoError::PoolNotActive),
        refusal(ctx.pool@, (Operation::Contribute { member: ctx.member@, now, transfer })) == Some(
            AjoError::PoolNotActive,
        ),
        pool_after(ctx.pool@, (Operation::Contribute { member: ctx.member@, now, transfer }))
            == ctx.pool@,
{
}

/// Once an active pool has taken a contribution at a time above zero, a
/// member who still owes a cycle can contribute exactly from the moment at
/// which the pool's interval has passed.
pub proof fn law_interval_gate(pool: PoolState, member: MemberState, now: i64)
    requires
        pool.active,
        member.contributions_made < pool.total_cycles,
        pool.last_contribution_time > 0,
    ensures
        contribution_refusal(pool, member, now) is None <==> now
            >= pool.last_contribution_time + pool.cycle_period.interval_seconds(),
        contribution_refusal(pool, member, now) is Some ==> contribution_refusal(
            pool,
            member,
            now,
        ) == Some(AjoError::ContributionAlreadyMade),
{
}

/// An accepted contribution leaves a well-formed pool well formed, changes
/// nothing in it but the time of the last contribution, and adds exactly
/// one to the member's count, which stays within the number of cycles.
pub proof fn law_contribution(pool: PoolState, pool_key: Identity, member: MemberState, now: i64)
    requires
        pool.well_formed(),
        contribution_refusal(pool, member, now) is None,
    ensures
        pool_after_contribution(pool, now).well_formed(),
        same_terms(pool, pool_after_contribution(pool, now)),
        pool_after_contribution(pool, now).last_contribution_time == now,
        pool_after_contribution(pool, now).current_cycle == pool.current_cycle,
        pool_after_contribution(pool, now).active,
        member_after_contribution(member).contributions_made == member.contributions_made + 1,
        member_after_contribution(member).has_collected == member.has_collected,
        member.belongs_to(pool, pool_key) ==> member_after_contribution(member).belongs_to(
            pool_after_contribution(pool, now),
            pool_key,
        ),
{
}

/// A payout is accepted only for the member at the pool's current cycle in
/// the payout order. It leaves a well-formed pool well formed, moves the
/// pool on by exactly one cycle, and marks the recipient as having collected.
pub proof fn law_payout(pool: PoolState, member: MemberState, wallet: Identity)
    requires
        payout_refusal(pool, member.wallet, wallet) is None,
    ensures
        pool.active,
        pool.current_cycle < pool.total_cycles,
        pool.current_cycle < pool.payout_order.len(),
        wallet == pool.payout_order[pool.current_cycle as int].0,
        member.wallet == wallet,
        pool_after_payout(pool).current_cycle == pool.current_cycle + 1,
        same_terms(pool, pool_after_payout(pool)),
        pool_after_payout(pool).payout_order == pool.payout_order,
        member_after_payout(member).has_collected,
        member_after_payout(member).contributions_made == member.contributions_made,
        pool.well_formed() ==> pool_after_payout(pool).well_formed(),
{
}

/// Whatever the members have paid in, the transfer that a payout needs
/// moves the contribution amount times the size of the group, out of the
/// vault.
pub proof fn law_payout_moves_one_round(ctx: ExecutePayout)
    requires
        ctx.required_transfer() is Ok,
    ensures
        ctx.required_transfer().unwrap().moved() == ctx.pool.contribution_amount
            * ctx.pool.total_members,
        match ctx.required_transfer().unwrap() {
            Transfer::Native { from, to, .. } => from == ctx.vault_key && to
                == ctx.recipient_wallet,
            Transfer::Token { from, to, authority, .. } => Some(from) == ctx.vault_token
                && Some(to) == ctx.recipient_token && authority == ctx.vault_key,
        },
{
}

/// Every operation, accepted or refused, leaves a well-formed pool well
/// formed and under the same terms. The pool never goes back from active to
/// forming, and it becomes active only through the join that fills it.
pub proof fn law_step(pool: PoolState, op: Operation)
    requires
        pool.well_formed(),
    ensures
        pool_after(pool, op).well_formed(),
        same_terms(pool, pool_after(pool, op)),
        pool.active ==> pool_after(pool, op).active,
        pool_after(pool, op).current_cycle >= pool.current_cycle,
        !pool.active && pool_after(pool, op).active ==> op is Join && refusal(pool, op) is None
            && pool_after(pool, op).member_count == pool.total_members && ascending(
            pool_after(pool, op).payout_order,
        ),
        pool.active ==> pool_after(pool, op).payout_order == pool.payout_order && pool_after(
            pool,
            op,
        ).members == pool.members,
{
    if refusal(pool, op) is None {
        match op {
            Operation::Join { user, position } => {
                law_join(pool, pool.creator, user, position);
            },
            Operation::Contribute { member, now, transfer } => {
                law_contribution(pool, pool.creator, member, now);
            },
            Operation::Payout { record_wallet, wallet, transfer } => {},
        }
    }
}

/// After any history of operations a well-formed pool is well formed and
/// under the same terms, and if it was active before, it is active after
/// and has the same members in the same payout order.
pub proof fn law_history(pool: PoolState, history: Seq<Operation>)
    requires
        pool.well_formed(),
    ensures
        pool_after_all(pool, history).well_formed(),
        same_terms(pool, pool_after_all(pool, history)),
        pool.active ==> pool_after_all(pool, history).active,
        pool.active ==> pool_after_all(pool, history).payout_order == pool.payout_order
            && pool_after_all(pool, history).members == pool.members,
        pool_after_all(pool, history).current_cycle >= pool.current_cycle,
    decreases history.len(),
{
    if history.len() > 0 {
        law_history(pool, history.drop_last());
        law_step(pool_after_all(pool, history.drop_last()), history.last());
    }
}

/// After any history of operations no two members of a pool share a wallet,
/// and no two of them a payout position.
pub proof fn law_wallets_stay_apart(
    pool: PoolState,
    history: Seq<Operation>,
    member: int,
    other_member: int,
)
    requires
        pool.well_formed(),
        0 <= member < other_member < pool_after_all(pool, history).member_count,
    ensures
        pool_after_all(pool, history).members[member] != pool_after_all(
            pool,
            history,
        ).members[other_member],
        pool_after_all(pool, history).payout_order[member].0 != pool_after_all(
            pool,
            history,
        ).payout_order[other_member].0,
        pool_after_all(pool, history).payout_order[member].1 != pool_after_all(
            pool,
            history,
        ).payout_order[other_member].1,
{
    law_history(pool, history);
}

/// Within one history a pool is activated at most once: if it is active
/// after the first `earlier` operations, it is active after the first
/// `later` ones.
pub proof fn law_activated_once(
    pool: PoolState,
    history: Seq<Operation>,
    earlier: int,
    later: int,
)
    requires
        pool.well_formed(),
        0 <= earlier <= later <= history.len(),
        pool_after_all(pool, history.take(earlier)).active,
    ensures
        pool_after_all(pool, history.take(later)).active,
    decreases later - earlier,
{
    if earlier < later {
        law_activated_once(pool, history, earlier, later - 1);
        law_history(pool, history.take(later - 1));
        assert(history.take(later).drop_last() =~= history.take(later - 1));
        law_step(pool_after_all(pool, history.take(later - 1)), history.take(later).last());
    }
}

/// The same operation, submitted `times` times over.
pub open spec fn replayed(op: Operation, times: nat) -> Seq<Operation> {
    Seq::new(times, |i: int| op)
}

/// A refused operation can be submitted again any number of times: the pool
/// stays exactly as it was, and the refusal stays the same.
pub proof fn law_refusal_replays(pool: PoolState, op: Operation, times: nat)
    requires
        refusal(pool, op) is Some,
    ensures
        pool_after_all(pool, replayed(op, times)) == pool,
        refusal(pool_after_all(pool, replayed(op, times)), op) == refusal(pool, op),
    decreases times,
{
    if times > 0 {
        law_refusal_replays(pool, op, (times - 1) as nat);
        assert(replayed(op, times).drop_last() =~= replayed(op, (times - 1) as nat));
        assert(replayed(op, times).last() == op);
    }
}

} // verus!
