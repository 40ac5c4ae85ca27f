//! A cross-border remittance escrow: senders' funds are held in custody, a platform fee is
//! taken, and the rest is paid out to a registered agent, or refunded on cancellation.
//! Transfers are checked against a rolling 24-hour send limit per sender.
//!
//! The state is a plain value, [`escrow::SwiftRemit`]. Its operations decide and record;
//! what they need from the host (an authorization, a token transfer, a notification) is
//! queued as an [`types::Effect`] for the host to perform.
pub mod types;
pub mod validation;
pub mod escrow;
pub mod laws;
