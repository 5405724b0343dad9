//! The logic of a token launchpad on a bonding curve: launching a token's
//! curve, buying from and selling to it, and migrating a completed curve to a
//! liquidity pool.

pub mod error;
pub mod launch;
pub mod migrate;
pub mod program;
pub mod state;
pub mod tick;
pub mod trade;

pub use error::Error;
pub use launch::{Launch, LaunchPlan, TokenMetadata};
pub use migrate::{Migrate, MigratePlan};
pub use state::{bonding_curve, keys_equal, BondingCurve, Config, Key};
pub use trade::{BuyPlan, BuySettlement, CompletionRecord, SellPlan, TradeRecord};
