//! The Bridged Inflatable Fungible Asset (BIFA) schema for RGB contracts.
//!
//! The schema and its validation scripts are described as plain data (see [`schema`] and
//! [`scripts`]) whose shape is fixed by exact contracts, and [`execution`] states what each
//! validation script decides when run on an operation; [`rgb`] is the boundary with the RGB
//! and AluVM libraries, [`bifa`] turns the plain data into the schema, type system and
//! validation libraries of the issuer, and [`reader`] decides what a contract's global state
//! reports.

use vstd::prelude::*;

pub mod schema;
pub mod scripts;
pub mod execution;
pub mod rgb;
pub mod bifa;
pub mod reader;
pub mod dumb;

verus! {

// Global state types.
pub const GS_ART: u16 = 3000;
pub const GS_ATTACH: u16 = 2104;
pub const GS_REJECT_LIST_URL: u16 = 2012;
pub const GS_LINKED_FROM_CONTRACT: u16 = 2013;
pub const GS_LINKED_TO_CONTRACT: u16 = 2014;
pub const GS_DETAILS: u16 = 3004;
pub const GS_ENGRAVINGS: u16 = 2103;
pub const GS_ISSUED_SUPPLY: u16 = 2010;
pub const GS_MAX_SUPPLY: u16 = 2011;
pub const GS_NAME: u16 = 3001;
pub const GS_NOMINAL: u16 = 2000;
pub const GS_PRECISION: u16 = 3005;
pub const GS_TERMS: u16 = 2001;
pub const GS_TOKENS: u16 = 2102;
pub const GS_PUBKEY: u16 = 3006;
pub const GS_EVM_CHAIN_ID: u16 = 2020;
pub const GS_EVM_CLAIM_MINT_CONTRACT: u16 = 2021;

// Owned state (assignment) types.
pub const OS_ASSET: u16 = 4000;
pub const OS_INFLATION: u16 = 4010;
pub const OS_LINK: u16 = 4013;
pub const OS_CLAIM_BATON: u16 = 4014;

// State transition types.
pub const TS_INFLATION: u16 = 8000;
pub const TS_BURN: u16 = 8010;
pub const TS_TRANSFER: u16 = 10000;
pub const TS_LINK: u16 = 8012;
pub const TS_GRANT_BATON: u16 = 8013;
pub const TS_CLAIM_MINT: u16 = 8014;

// Metadata types.
pub const MS_ALLOWED_INFLATION: u16 = 1000;
pub const MS_CLAIM_AMOUNT: u16 = 1001;
pub const MS_CLAIM_CHAIN_ID: u16 = 1002;
pub const MS_CLAIM_CONTRACT: u16 = 1003;
pub const MS_CLAIM_EVENT_LOG_INDEX: u16 = 1004;
pub const MS_CLAIM_EVENT_TX_HASH: u16 = 1005;
pub const MS_CLAIM_NULLIFIER: u16 = 1006;
pub const MS_CLAIM_PROOF: u16 = 1007;

// Error numbers reported by the validation scripts.
pub const ERRNO_NON_EQUAL_IN_OUT: u8 = 0;
pub const ERRNO_ISSUED_MISMATCH: u8 = 1;
pub const ERRNO_NON_FRACTIONAL: u8 = 10;
pub const ERRNO_MISSING_PUBKEY: u8 = 20;
pub const ERRNO_INVALID_SIGNATURE: u8 = 21;
pub const ERRNO_INFLATION_MISMATCH: u8 = 30;
pub const ERRNO_INFLATION_EXCEEDS_ALLOWANCE: u8 = 31;

} // verus!
