//! A verified model of a token transfer-hook program: the account-state check
//! that detects out-of-band invocations, the persistent invocation counter,
//! the TLV-encoded extra-account resolver configuration, and the fallback
//! dispatcher that routes the external interface's fixed 8-byte tag.

pub mod addr;
pub mod dispatch;
pub mod error;
pub mod hook;
pub mod laws;
pub mod state;
pub mod tlv;
