//! What the pool asks of the custodian that holds and moves the funds.
//!
//! The pool never moves funds itself. Each operation that involves money
//! names the one transfer it needs; whoever drives the pool has the
//! custodian carry it out and reports back how that went.

use vstd::prelude::*;
use crate::error::AjoError;
use crate::identity::Identity;
use crate::state::CurrencyType;

verus! {

/// One movement of funds, in the form the pool's currency calls for.
#[derive(Clone, Copy, Debug, PartialEq, Eq)]
pub enum Transfer {
    /// Native funds from one account's balance to another's.
    Native { from: Identity, to: Identity, amount: u64 },
    /// Tokens from one token account to another, ordered by `authority`
    /// and carried out by the token program.
    Token { from: Identity, to: Identity, authority: Identity, program: Identity, amount: u64 },
}

impl Transfer {
    /// How much this transfer moves.
    pub open spec fn moved(self) -> u64 {
        match self {
            Transfer::Native { amount, .. } => amount,
            Transfer::Token { amount, .. } => amount,
        }
    }

    /// Computes [`Transfer::moved`].
    pub fn amount(&self) -> (amount: u64)
        ensures
            amount == self.moved(),
    {
        match self {
            Transfer::Native { amount, .. } => *amount,
            Transfer::Token { amount, .. } => *amount,
        }
    }
}

/// The transfer of `amount` in `currency` from `payer` to `payee`, ordered by
/// `authority`. A native transfer runs between the two accounts themselves.
/// A token transfer runs between their token accounts and needs both of
/// them and the token program: without one of them it cannot be formed.
pub open spec fn transfer_in(
    currency: CurrencyType,
    payer: Identity,
    payee: Identity,
    authority: Identity,
    payer_token: Option<Identity>,
    payee_token: Option<Identity>,
    token_program: Option<Identity>,
    amount: u64,
) -> Result<Transfer, AjoError> {
    match currency {
        CurrencyType::SOL => Ok(Transfer::Native { from: payer, to: payee, amount }),
        CurrencyType::USDC => if payer_token.is_some() && payee_token.is_some()
            && token_program.is_some() {
            Ok(
                Transfer::Token {
                    from: payer_token.unwrap(),
                    to: payee_token.unwrap(),
                    authority,
                    program: token_program.unwrap(),
                    amount,
                },
            )
        } else {
            Err(AjoError::TokenAccountMissing)
        },
    }
}

/// Computes [`transfer_in`].
pub fn form_transfer(
    currency: CurrencyType,
    payer: Identity,
    payee: Identity,
    authority: Identity,
    payer_token: Option<Identity>,
    payee_token: Option<Identity>,
    token_program: Option<Identity>,
    amount: u64,
) -> (order: Result<Transfer, AjoError>)
    ensures
        order == transfer_in(
            currency,
            payer,
            payee,
            authority,
            payer_token,
            payee_token,
            token_program,
            amount,
        ),
{
    match currency {
        CurrencyType::SOL => Ok(Transfer::Native { from: payer, to: payee, amount }),
        CurrencyType::USDC => match (payer_token, payee_token, token_program) {
            (Some(from), Some(to), Some(program)) => Ok(
                Transfer::Token { from, to, authority, program, amount },
            ),
            _ => Err(AjoError::TokenAccountMissing),
        },
    }
}

} // verus!
