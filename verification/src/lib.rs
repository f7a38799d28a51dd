//! Declared filesystem state and how it is brought about.
//!
//! A script declares files to write and links to make. The declarations are
//! recorded as a plan ([`lua::Run`]), in the order in which they were made.
//! The plan is then carried out ([`executor`]): applied to the filesystem,
//! one operation after the other, or rehearsed as a dry run that touches
//! nothing. Either way the outcome is a report with one result for each
//! operation, in the plan's order.
//!
//! The library decides and the caller acts. It holds no handle to a
//! filesystem or to a script host: a run asks its caller for each step and
//! is told what came of it, and the script's calls reach the library as plain
//! values.

pub mod error;
pub mod executor;
pub mod lua;
pub mod order;
pub mod paths;
pub mod plan;
pub mod runtime;
pub mod text;

pub use error::Error;
pub use executor::{apply, dry_run, execute, ExecutionReport, Mode, OpResult};
pub use plan::Op;
pub use runtime::Runtime;
