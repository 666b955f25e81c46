//! Bridge V1 subprotocol: Bitcoin deposits locked to the N/N operator multisig,
//! withdrawal assignments, and the validation of deposit and withdrawal
//! fulfillment transactions.

pub mod constants;
pub mod deposit;
pub mod errors;
pub mod parse;
pub mod validation;
pub mod assignment;
pub mod state;
pub mod msgs;
pub mod subprotocol;
pub mod laws;
pub mod txs;
