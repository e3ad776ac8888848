//! Managed access to one relational database connection for a single-threaded,
//! cooperative host: the connection's lifecycle, the classification of
//! failures, the reconnection schedule, transaction leases and the queues that
//! carry results back to the host.

pub mod column;
pub mod conn;
pub mod constants;
pub mod driver;
pub mod error;
pub mod options;
pub mod query;
pub mod queue;
pub mod runtime;
pub mod state;
pub mod text;
pub mod transaction;
