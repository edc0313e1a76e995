//! A single-tenant reward ledger.
//!
//! The library tracks a fungible point balance per account, records
//! contribution metrics submitted by the configured owner, mints reward
//! points computed from those metrics, and lets account holders redeem
//! accumulated points against a small catalog of named benefits.
//!
//! The hosting environment that authenticates callers and delivers
//! redemption benefits is outside this library: every operation takes the
//! authenticated caller identity as an explicit parameter, and a successful
//! redemption returns a [`token::BenefitRequest`] that the host dispatches.

pub mod assoc;
pub mod catalog;
pub mod contributions;
pub mod errors;
pub mod guard;
pub mod ledger;
pub mod reward;
pub mod token;

pub use catalog::RedemptionOption;
pub use contributions::ContributionMetrics;
pub use errors::TokenError;
pub use token::BenefitRequest;
pub use token::FoodBankToken;
