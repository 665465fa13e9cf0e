//! State-transition rules for a token protocol: proposal governance and
//! staking accounting, with every balance computation guarded against
//! overflow.

pub mod arith;
pub mod clock;
pub mod governance;
pub mod identity;
pub mod ledger;
pub mod staking;
