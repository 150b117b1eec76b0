//! Paying out: one round's pooled amount, to the member whose turn it is,
//! strictly in the order fixed when the pool was activated.

use vstd::prelude::*;
use crate::custody::{form_transfer, transfer_in, Transfer};
use crate::error::AjoError;
use crate::identity::Identity;
use crate::lifecycle::{outcome, payout_step, pool_after};
use crate::state::{MemberAccount, MemberState, PoolAccount, PoolState, VaultAccount};

verus! {

/// What a payout works on: the pool, the record and the wallet of the member
/// named as recipient, and the accounts between which the payout moves.
#[derive(Clone, Debug, PartialEq, Eq)]
pub struct ExecutePayout {
    pub pool: PoolAccount,
    /// The member record of the named recipient.
    pub recipient: MemberAccount,
    /// The wallet that is to be paid.
    pub recipient_wallet: Identity,
    pub vault: VaultAccount,
    /// The address of the vault, which pays and authorises the payout.
    pub vault_key: Identity,
    /// The vault's token account, for a pool held in tokens.
    pub vault_token: Option<Identity>,
    /// The recipient's token account, for a pool held in tokens.
    pub recipient_token: Option<Identity>,
    /// The token program, for a pool held in tokens.
    pub token_program: Option<Identity>,
}

/// Why `pool` cannot pay out to `wallet`, named through a member record
/// that is kept for `record_wallet`, if it cannot.
///
/// Only the member at index `current_cycle` of the payout order can be paid.
/// A round whose amount is more than any balance can be is refused for want
/// of funds.
pub open spec fn payout_refusal(pool: PoolState, record_wallet: Identity, wallet: Identity) -> Option<
    AjoError,
> {
    if !pool.active {
        Some(AjoError::PoolNotActive)
    } else if pool.completed() {
        Some(AjoError::PoolCompleted)
    } else if record_wallet != pool.payout_order[pool.current_cycle as int].0 || wallet
        != pool.payout_order[pool.current_cycle as int].0 {
        Some(AjoError::InvalidPayoutRecipient)
    } else if pool.payout_amount() > u64::MAX {
        Some(AjoError::InsufficientFunds)
    } else {
        None
    }
}

/// The pool after one more payout has been made.
pub open spec fn pool_after_payout(pool: PoolState) -> PoolState {
    PoolState { current_cycle: (pool.current_cycle + 1) as u8, ..pool }
}

/// The member's record after its payout has been made.
pub open spec fn member_after_payout(member: MemberState) -> MemberState {
    MemberState { has_collected: true, ..member }
}

impl ExecutePayout {
    /// The transfer that the next payout needs, or why there can be none:
    /// one round's amount, from the vault to the recipient's wallet, on the
    /// vault's authority.
    pub open spec fn required_transfer(&self) -> Result<Transfer, AjoError> {
        match payout_refusal(self.pool@, self.recipient.wallet, self.recipient_wallet) {
            Some(reason) => Err(reason),
            None => transfer_in(
                self.pool.currency,
                self.vault_key,
                self.recipient_wallet,
                self.vault_key,
                self.vault_token,
                self.recipient_token,
                self.token_program,
                self.pool@.payout_amount() as u64,
            ),
        }
    }
}

/// What one payout of `pool` moves: the contribution amount times the size
/// of the group, whatever the members have paid in.
pub fn payout_amount(pool: &PoolAccount) -> (amount: u128)
    ensures
        amount == pool@.payout_amount(),
{
    let each: u128 = pool.contribution_amount as u128;
    let members: u128 = pool.total_members as u128;
    assert(each * members <= 0xffff_ffff_ffff_ffff * 0xff) by (nonlinear_arith)
        requires
            0 <= each <= 0xffff_ffff_ffff_ffff,
            0 <= members <= 0xff,
    ;
    each * members
}

/// Decides whether the next payout may go ahead, and names the transfer that
/// the custodian has to make for it. Nothing is changed.
pub fn payout_transfer(ctx: &ExecutePayout) -> (order: Result<Transfer, AjoError>)
    ensures
        order == ctx.required_transfer(),
{
    if !ctx.pool.active {
        return Err(AjoError::PoolNotActive);
    }
    let cycle: usize = ctx.pool.current_cycle as usize;
    if ctx.pool.current_cycle >= ctx.pool.total_cycles || cycle >= ctx.pool.payout_order.len() {
        return Err(AjoError::PoolCompleted);
    }
    let expected: Identity = ctx.pool.payout_order[cycle].0;
    if ctx.recipient.wallet != expected || ctx.recipient_wallet != expected {
        return Err(AjoError::InvalidPayoutRecipient);
    }
    let amount: u128 = payout_amount(&ctx.pool);
    if amount > u64::MAX as u128 {
        return Err(AjoError::InsufficientFunds);
    }
    form_transfer(
        ctx.pool.currency,
        ctx.vault_key,
        ctx.recipient_wallet,
        ctx.vault_key,
        ctx.vault_token,
        ctx.recipient_token,
        ctx.token_program,
        amount as u64,
    )
}

/// Records the next payout, given how the custodian fared with the transfer
/// that [`payout_transfer`] named.
///
/// Refused, with nothing changed, when the payout may not go ahead (with
/// that reason), and else when the transfer failed (with the custodian's
/// reason). Otherwise the recipient is marked as having collected and the
/// pool moves on to the next cycle.
pub fn execute_payout(ctx: &mut ExecutePayout, transfer: Result<(), AjoError>) -> (result: Result<
    (),
    AjoError,
>)
    ensures
        result == outcome(old(ctx).pool@, payout_step(*old(ctx), transfer)),
        final(ctx).pool@ == pool_after(old(ctx).pool@, payout_step(*old(ctx), transfer)),
        match (old(ctx).required_transfer(), transfer) {
            (Err(reason), _) => result == Err::<(), AjoError>(reason) && *final(ctx) == *old(ctx),
            (Ok(_), Err(reason)) => result == Err::<(), AjoError>(reason) && *final(ctx) == *old(
                ctx,
            ),
            (Ok(_), Ok(_)) => {
                &&& result == Ok::<(), AjoError>(())
                &&& final(ctx).pool@ == pool_after_payout(old(ctx).pool@)
                &&& final(ctx).recipient@ == member_after_payout(old(ctx).recipient@)
                &&& final(ctx).recipient_wallet == old(ctx).recipient_wallet
                &&& final(ctx).vault == old(ctx).vault
                &&& final(ctx).vault_key == old(ctx).vault_key
                &&& final(ctx).vault_token == old(ctx).vault_token
                &&& final(ctx).recipient_token == old(ctx).recipient_token
                &&& final(ctx).token_program == old(ctx).token_program
                &&& old(ctx).pool@.well_formed() ==> final(ctx).pool@.well_formed()
            },
        },
{
    match payout_transfer(ctx) {
        Err(reason) => {
            return Err(reason);
        },
        Ok(_) => {},
    }
    match transfer {
        Err(reason) => {
            return Err(reason);
        },
        Ok(_) => {},
    }
    ctx.recipient.has_collected = true;
    ctx.pool.current_cycle = ctx.pool.current_cycle + 1;
    Ok(())
}

} // verus!
