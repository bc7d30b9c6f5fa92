//! Reversible payments with owner clawback: spending policies for agents,
//! trusted recipients, tiered cooling-off delays and an escrow state machine.
//!
//! Every operation takes the records it reads and writes as one context value
//! and the current time as a plain timestamp. An operation either succeeds
//! with all of its effects or fails and leaves its context as it was.
pub mod cooling_off;
pub mod error;
pub mod keys;
pub mod payment;
pub mod policy;
pub mod token;
pub mod trust;
pub mod vault;

pub use cooling_off::get_cooling_off_period;
pub use error::ClawbackError;
pub use keys::Pubkey;
pub use payment::{
    clawback, finalize, initiate_payment, Clawback, Finalize, InitiatePayment, Payment,
    PaymentStatus,
};
pub use policy::{pause_agent, set_policy, unpause_agent, ModifyPolicy, Policy, SetPolicy};
pub use token::{transfer, TokenAccount};
pub use trust::{is_trusted, set_trusted_recipient, SetTrustedRecipient, TrustedRecipient};
pub use vault::{initialize_vault, InitializeVault, Vault};
