//! Ledger contracts of the BlueCollar protocol, as verified state machines.
//!
//! A contract value ([`payment::PaymentContract`], [`market::MarketContract`],
//! [`registry::RegistryContract`]) is what the contract keeps in ledger storage.
//! Every entry point takes that state and an [`host::Env`], decides, changes the
//! state, and records in the environment, in order, what the host is to do:
//! authorisations to demand, entries to write, tokens to move, events to publish.

pub mod error;
pub mod fees;
pub mod host;
pub mod ledger;
pub mod list;
pub mod market;
pub mod payment;
pub mod registry;
pub mod roles;
pub mod table;
pub mod values;
