//! A fundraising ledger: campaigns are opened with a funding target, take
//! donations up to that target, and hand what they hold above a reserve to
//! their owner.
//!
//! The three operations work on plain values and return what the balance
//! store has to carry out and what observers are told. Addresses are derived
//! as program-derived addresses of the Solana runtime.
#![allow(non_snake_case)]

pub mod accounts;
pub mod address;
pub mod campaign;
pub mod derive;
pub mod entry;
pub mod error;
pub mod events;
pub mod instructions;
pub mod laws;

pub use accounts::{CampaignAccount, CampaignSlot, CreateCampaign, Donate, Transfer, Withdraw};
pub use address::Address;
pub use campaign::Campaign;
pub use entry::{process_create_campaign, process_donate, process_withdraw};
pub use error::ErrorCode;
pub use events::{CampaignCreated, DonationMade, WithdrawalMade};
pub use instructions::{createCampaign, donate, withdraw};
