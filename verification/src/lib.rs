//! A multi-currency, yield-bearing deposit ledger.
//!
//! Users deposit value denominated in one of several currencies; cross-currency
//! deposits are parked as pending records and later converted through a price
//! oracle quote, accounting shares are minted against a per-instrument
//! NAV-per-share, yield accrues into the NAV over time, and users withdraw or
//! claim realized yield. Every state transition is a pure function over plain
//! record values; the surrounding runtime performs the actual value transfers
//! and supplies clock and oracle readings.

pub mod admin;
pub mod claim;
pub mod conversion;
pub mod deposit;
pub mod errors;
pub mod identity;
pub mod instrument;
pub mod nav;
pub mod pending;
pub mod position;
pub mod protocol;
pub mod source;
pub mod tier;
pub mod vault;
pub mod withdraw;
