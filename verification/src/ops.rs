//! One resolver-and-builder per protocol operation.
//!
//! Each operation takes the client context, the caller-supplied addresses
//! and the snapshots it depends on, and assembles the exact instruction
//! the remote program's schema asks for: accounts in fixed order with
//! fixed flags, payload of discriminator plus arguments. No network access
//! happens here.

pub mod borrow;
pub mod common;
pub mod deposit;
pub mod init;
pub mod liquidate;
pub mod redeem;
pub mod refresh;
pub mod repay;
pub mod withdraw;
