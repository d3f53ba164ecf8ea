//! Verified model of the Nevo education-funding contract: donation pools,
//! school registration, student applications and claims, fees, refunds and
//! emergency withdrawals, plus the small campaign registry kept beside it.
//!
//! Every entry point is a function from the contract state and its inputs to
//! either an error (with the state left untouched) or a new state together
//! with the effects that the host must carry out: the addresses whose
//! authorization the call demands, the token transfers it makes and the
//! events it publishes.

pub mod types;
pub mod pool;
pub mod model;
pub mod contract;
pub mod campaigns;
pub mod laws;
