//! Typed query paths and transaction results for a node's RPC interface.

pub mod address;
pub mod address_map;
pub mod balance;
pub mod bond;
pub mod error;
pub mod event;
pub mod event_log;
pub mod hash;
pub mod path;
pub mod report;
pub mod slash;
pub mod storage;
pub mod text;
pub mod token;
pub mod tx;
