//! A custodial wallet core: an encrypted account vault, a registry of
//! network endpoints and the construction of signed transactions.

pub mod errors;
pub mod hexcodec;
pub mod crypto;
pub mod text;
pub mod json;
pub mod network;
pub mod numeric;
pub mod keys;
pub mod account;
pub mod transaction;
pub mod pipeline;
pub mod history;
pub mod commands;
