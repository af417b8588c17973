//! A GraphQL gateway built from two parts: an adapter that drives one GraphQL
//! schema through either a one-shot serverless front door or a local HTTP
//! listener, and a supervisor with a retrying proxy that forwards invocations
//! to a federation router running beside the program.
//!
//! The subgraph modules hold the fixed data that the four GraphQL services
//! resolve their fields from.
pub mod adapter;
pub mod proxy;
pub mod supervisor;
pub mod media;
pub mod users;
pub mod products;
pub mod reviews;
