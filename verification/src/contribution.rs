//! Accepting contributions: only into an active pool, only while the member
//! still owes a cycle, and no sooner after the pool's last contribution than
//! the pool's period allows.

use vstd::prelude::*;
use crate::custody::{form_transfer, transfer_in, Transfer};
use crate::error::AjoError;
use crate::identity::Identity;
use crate::lifecycle::{contribution_step, outcome, pool_after};
use crate::state::{MemberAccount, MemberState, PoolAccount, PoolState};

verus! {

/// What a contribution works on: the pool, the contributor's record, and the
/// accounts between which the contribution moves.
#[derive(Clone, Debug, PartialEq, Eq)]
pub struct MakeContribution {
    pub pool: PoolAccount,
    pub member: MemberAccount,
    /// The contributor, who submits the operation and pays.
    pub user: Identity,
    /// The pool's vault, which is paid.
    pub vault: Identity,
    /// The contributor's token account, for a pool held in tokens.
    pub user_token: Option<Identity>,
    /// The vault's token account, for a pool held in tokens.
    pub vault_token: Option<Identity>,
    /// The token program, for a pool held in tokens.
    pub token_program: Option<Identity>,
}

/// Why `member` cannot contribute to `pool` at time `now`, if it cannot.
///
/// The interval is counted from the last contribution that the pool accepted
/// from any member, and only once there has been one with a time above zero.
pub open spec fn contribution_refusal(pool: PoolState, member: MemberState, now: i64) -> Option<
    AjoError,
> {
    if !pool.active {
        Some(AjoError::PoolNotActive)
    } else if member.contributions_made >= pool.total_cycles {
        Some(AjoError::ContributionAlreadyMade)
    } else if pool.last_contribution_time > 0 && now - pool.last_contribution_time
        < pool.cycle_period.interval_seconds() {
        Some(AjoError::ContributionAlreadyMade)
    } else {
        None
    }
}

/// The pool after it has accepted a contribution at time `now`.
pub open spec fn pool_after_contribution(pool: PoolState, now: i64) -> PoolState {
    PoolState { last_contribution_time: now, ..pool }
}

/// The member's record after one more of its contributions was accepted.
pub open spec fn member_after_contribution(member: MemberState) -> MemberState {
    MemberState { contributions_made: (member.contributions_made + 1) as u8, ..member }
}

impl MakeContribution {
    /// The transfer that a contribution at time `now` needs, or why there
    /// can be none: the pool's contribution amount, from the contributor to
    /// the vault, on the contributor's authority.
    pub open spec fn required_transfer(&self, now: i64) -> Result<Transfer, AjoError> {
        match contribution_refusal(self.pool@, self.member@, now) {
            Some(reason) => Err(reason),
            None => transfer_in(
                self.pool.currency,
                self.user,
                self.vault,
                self.user,
                self.user_token,
                self.vault_token,
                self.token_program,
                self.pool.contribution_amount,
            ),
        }
    }
}

/// Whether less than `interval` seconds lie between `last` and `now`.
fn too_soon(last: i64, now: i64, interval: i64) -> (soon: bool)
    requires
        last > 0,
        interval > 0,
    ensures
        soon == (now - last < interval),
{
    now < last || now - last < interval
}

/// Decides whether a contribution at time `now` may go ahead, and names the
/// transfer that the custodian has to make for it. Nothing is changed.
pub fn contribution_transfer(ctx: &MakeContribution, now: i64) -> (order: Result<
    Transfer,
    AjoError,
>)
    ensures
        order == ctx.required_transfer(now),
{
    if !ctx.pool.active {
        return Err(AjoError::PoolNotActive);
    }
    if ctx.member.contributions_made >= ctx.pool.total_cycles {
        return Err(AjoError::ContributionAlreadyMade);
    }
    if ctx.pool.last_contribution_time > 0 && too_soon(
        ctx.pool.last_contribution_time,
        now,
        ctx.pool.cycle_period.interval(),
    ) {
        return Err(AjoError::ContributionAlreadyMade);
    }
    form_transfer(
        ctx.pool.currency,
        ctx.user,
        ctx.vault,
        ctx.user,
        ctx.user_token,
        ctx.vault_token,
        ctx.token_program,
        ctx.pool.contribution_amount,
    )
}

/// Records a contribution made at time `now`, given how the custodian fared
/// with the transfer that [`contribution_transfer`] named.
///
/// Refused, with nothing changed, when the contribution may not go ahead
/// (with that reason), and else when the transfer failed (with the
/// custodian's reason). Otherwise the member has one more contribution to
/// its name and the pool's clock starts again at `now`.
pub fn make_contribution(ctx: &mut MakeContribution, now: i64, transfer: Result<(), AjoError>) -> (result:
    Result<(), AjoError>)
    ensures
        result == outcome(old(ctx).pool@, contribution_step(*old(ctx), now, transfer)),
        final(ctx).pool@ == pool_after(
            old(ctx).pool@,
            contribution_step(*old(ctx), now, transfer),
        ),
        match (old(ctx).required_transfer(now), transfer) {
            (Err(reason), _) => result == Err::<(), AjoError>(reason) && *final(ctx) == *old(ctx),
            (Ok(_), Err(reason)) => result == Err::<(), AjoError>(reason) && *final(ctx) == *old(
                ctx,
            ),
            (Ok(_), Ok(_)) => {
                &&& result == Ok::<(), AjoError>(())
                &&& final(ctx).pool@ == pool_after_contribution(old(ctx).pool@, now)
                &&& final(ctx).member@ == member_after_contribution(old(ctx).member@)
                &&& final(ctx).user == old(ctx).user
                &&& final(ctx).vault == old(ctx).vault
                &&& final(ctx).user_token == old(ctx).user_token
                &&& final(ctx).vault_token == old(ctx).vault_token
                &&& final(ctx).token_program == old(ctx).token_program
                &&& old(ctx).pool@.well_formed() ==> final(ctx).pool@.well_formed()
            },
        },
{
    match contribution_transfer(ctx, now) {
        Err(reason) => {
            return Err(reason);
        },
        Ok(_) => {},
    }
    match transfer {
        Err(reason) => {
            return Err(reason);
        },
        Ok(_) => {},
    }
    ctx.member.contributions_made = ctx.member.contributions_made + 1;
    ctx.pool.last_contribution_time = now;
    Ok(())
}

} // verus!
