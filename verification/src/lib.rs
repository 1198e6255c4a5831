//! Third-party login through GitHub's OAuth code flow, as a verified state
//! machine: each request is driven by events, and every decision the flow
//! takes is stated in a contract.
//!
//! - [`flow`] takes the steps of one login: it is told what the outside
//!   world reports and says what to do next.
//! - [`model`] is the same flow as mathematics, with what holds of every
//!   run.
//! - [`query`], [`provider`], [`http`] and [`json`] read the request and
//!   build what is sent: the code of the callback, the two calls to the
//!   provider, and the replies.
//! - [`users`] and [`table`] are the stored users and the table that keeps
//!   one row for each identity.
//! - [`handler`] runs a whole login on a table in memory, and [`laws`]
//!   says what holds of whole logins.

pub mod flow;
pub mod handler;
pub mod http;
pub mod json;
pub mod laws;
pub mod model;
pub mod provider;
pub mod query;
pub mod table;
pub mod users;
