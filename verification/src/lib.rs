//! A rotating savings pool: a fixed group pays in every cycle, and each cycle
//! one member, in a fixed order, collects the whole round.

pub mod address;
pub mod contribution;
pub mod custody;
pub mod error;
pub mod formation;
pub mod identity;
pub mod lifecycle;
pub mod order;
pub mod payout;
pub mod state;

pub use address::{member_address, pool_address, vault_address};
pub use contribution::{contribution_transfer, make_contribution, MakeContribution};
pub use custody::Transfer;
pub use error::AjoError;
pub use formation::{create_pool, join_pool, CreatePool, JoinPool};
pub use identity::Identity;
pub use payout::{execute_payout, payout_amount, payout_transfer, ExecutePayout};
pub use state::{CurrencyType, CyclePeriod, MemberAccount, PoolAccount, VaultAccount};
