//! A verified core for a Kanban-board command-line client.
//!
//! The crate models the client's artifacts (boards, lists, cards, swimlanes,
//! checklists), the name/filter-to-id resolver with its cache freshness
//! policy, the generic subcommand operator shared by every artifact kind, and
//! the display layer's table formatting.  Network and file transfer stay
//! outside; the decisions taken on their results are verified here.

pub mod artifact;
pub mod card;
pub mod client;
pub mod command;
pub mod config;
pub mod display;
pub mod error;
pub mod filter;
pub mod http;
pub mod operator;
pub mod resolver;
pub mod result;
pub mod store;
pub mod strutil;
pub mod subcommand;
pub mod timeutil;
pub mod validation;
