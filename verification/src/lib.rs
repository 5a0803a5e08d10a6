//! Payment analytics: a compiler for metric queries, and the models around it.
//!
//! A request names a kind of metric, the dimensions to group by, filters, a
//! time granularity, a time range and the authorization scope it runs under.
//! [`distribution`] turns it into a query for a data source and assembles the
//! rows that come back into buckets, each keyed by its values in the selected
//! dimensions and by its time window. On the way a request passes through
//!
//! - [`dimension`], [`filter`], [`granularity`] and [`auth`]: what a request
//!   is made of;
//! - [`plan`]: the logical plan of a query, and which payments it reads;
//! - [`backend`] and [`render`]: what a data source must be able to write, the
//!   two dialects that can, and the query written in one of them;
//! - [`row`] and [`bucket`]: the rows of a result and the identity of a
//!   bucket;
//! - [`error`]: the ways in which all this can fail.
//!
//! Compiling a query touches nothing outside: the same request always gives
//! the same query, and running the query is left to the caller.
//!
//! The other modules hold models of the payment platform with what is decided
//! on them: errors of the API ([`api_error`]), events of the refunds API
//! ([`events`]), constraints of payout lists ([`payouts`]), queries on payment
//! attempts ([`payment_attempt`]), payment intents as they are published
//! ([`kafka`]), and details that are stored with a payment ([`types`],
//! [`revenue_recovery`]).
//!
//! Every function is verified against the contract it carries. What is
//! taken on trust of the crates that the library calls is marked as such
//! where it stands.

pub mod api_error;
pub mod auth;
pub mod backend;
pub mod bucket;
pub mod dimension;
pub mod distribution;
pub mod error;
pub mod events;
pub mod filter;
pub mod granularity;
pub mod kafka;
pub mod payment_attempt;
pub mod payouts;
pub mod plan;
pub mod render;
pub mod revenue_recovery;
pub mod row;
pub mod text;
pub mod types;
