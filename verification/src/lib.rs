//! Decoders for on-chain instruction trees of the SPL token program and the
//! pump.fun bonding-curve program, turning each instruction into a typed
//! domain event.

pub mod bytes;
pub mod errors;
pub mod laws;
pub mod ledger;
pub mod model;
pub mod pumpfun;
pub mod pumpfun_events;
pub mod pumpfun_instruction;
pub mod pumpfun_log;
pub mod spl_token;
pub mod token_events;
pub mod token_instruction;
