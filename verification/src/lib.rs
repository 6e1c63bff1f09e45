//! Auditing a follow list for accounts that have been deleted.
//!
//! The crate holds the decisions of the audit: which pages of the follow list
//! to ask for, which entries count as deleted, what to send to unsubscribe from
//! them and how each reply is judged. It performs no input or output itself.
//! The collector and the sweeper are state machines: a driver carries out the
//! action that a step returns and feeds back what happened as the next event.

pub mod collector;
pub mod delay;
pub mod filter;
pub mod model;
pub mod session;
pub mod sweeper;
pub mod wire;
