//! Statement construction and outcome mapping for a restaurant's ordering
//! service: tables with their seat counts, and the items ordered at them.
//!
//! The crate builds the parameterised SQL statement of every operation,
//! sizes bulk inserts to the driver's bind limit, and turns what the storage
//! layer reports back into the response sent to the caller. It performs no
//! I/O: running a statement is left to the program around it.

pub mod batch;
pub mod errors;
pub mod health;
pub mod models;
pub mod outcome;
pub mod query;
pub mod response_builder;
pub mod sql;
pub mod status;
pub mod text;
