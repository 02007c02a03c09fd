//! Rate- and cooldown-gated token issuance: the on-chain authorization
//! program's state machine and the off-chain admission gates in front of it.

pub mod address;
pub mod error;
pub mod instruction;
pub mod state;
pub mod authority;
pub mod token;
pub mod program;
pub mod rate_limiter;
pub mod cooldown;
pub mod admission;
