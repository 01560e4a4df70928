//! A verified model of an atomic carbon-retirement swap contract.
//!
//! A funder burns a quantity of the CARBON asset and an equal, kg-quantized
//! quantity of the CarbonSINK asset is minted to a recipient as retirement
//! proof. The library holds the contract's full decision and accounting
//! logic over a plain-data model of the hosting ledger: the persisted
//! contract state, the two asset services, the caller-authorization
//! context, and the storage time-to-live. The thin host glue that carries
//! these decisions onto an actual ledger lives outside the library.

pub mod address;
pub mod auth;
pub mod classify;
pub mod contract;
pub mod errors;
pub mod quantize;
pub mod storage_types;
pub mod token;
