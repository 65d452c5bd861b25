//! A fungible-token ledger, verified with Verus.
//!
//! The ledger tracks who owns how much of a fixed supply of units, lets
//! accounts move units to one another, and lets an owner allow a spender to
//! move a limited amount on the owner's behalf. The host that runs the ledger
//! supplies the authenticated caller of each operation and publishes the
//! events that successful operations hand back.
//!
//! [`model`] describes the ledger as a state machine over plain mathematics,
//! [`laws`] proves what holds of that machine (above all that the balances
//! always add up to the total supply), and [`ledger`] is the executable
//! ledger, each of whose operations is proved to take exactly the step the
//! model describes.

pub mod account;
pub mod error;
pub mod event;
pub mod laws;
pub mod ledger;
pub mod model;
pub mod sum;
pub mod table;

pub use account::{AccountId, Balance};
pub use error::PSP22Error;
pub use event::{Approval, Transfer};
pub use ledger::{Psp22Ink, PSP22};
