//! A staking ledger: participants deposit a native asset, accrue rewards in
//! proportion to elapsed blocks and to their share of the pooled balance, and
//! withdraw principal and rewards independently.

pub mod active_set;
pub mod amount;
pub mod context;
pub mod contract;
pub mod error;
pub mod identity;
pub mod laws;
pub mod model;
pub mod position;
pub mod position_store;
pub mod rewards;

pub use crate::active_set::ActiveSet;
pub use crate::amount::Amount;
pub use crate::context::CallContext;
pub use crate::contract::{StakingContract, Withdrawal};
pub use crate::error::StakingError;
pub use crate::identity::Identity;
pub use crate::position::StakingPosition;
pub use crate::position_store::PositionStore;
pub use crate::rewards::REWARDS_PER_BLOCK;
