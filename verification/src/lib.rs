//! Offline toolkit for the pump and pump_amm programs.

pub mod account_wrapper;
pub mod accounts;
pub mod bytes;
pub mod client;
pub mod clone_accounts;
pub mod constants;
pub mod errors;
pub mod instruction;
pub mod key_order;
pub mod local_validator;
pub mod math;
pub mod pda;
pub mod pubkey;
pub mod sdk;
pub mod snapshot;
pub mod state;
pub mod text;
pub mod token;
pub mod validator_laws;

pub use accounts::decode;
pub use client::ComputeBudget;
pub use errors::PumpClientError;
pub use sdk::{
    AmmQuoteSource, CreateCoinParams, PumpPoolCtx, PumpPoolQuoteCtx, PumpSdk, Quote,
    TradeQuoteParams, TradeTxParams, TradeTxWithVenueParams, TradeVenue,
};
