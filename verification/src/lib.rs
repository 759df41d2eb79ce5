//! A payment gateway that splits each accepted deposit between a fees
//! account and a rest account.
//!
//! The gateway is configured once with a minimum amount, a fee in whole
//! percent, the two accounts and the token it accepts. Every deposit is
//! then either rejected or cut in two parts that add up to the deposit.

pub mod fees;
pub mod gateway;
pub mod laws;
pub mod token;

pub use fees::Split;
pub use gateway::{try_send_token, DepositSplitter, GatewayError, GtwFees1, Settings};
pub use token::{Address, TokenId};
