//! Runs a program under valgrind's memory checker and turns the XML report
//! that valgrind streams back into a list of leaks with their call traces.
//!
//! The library holds the decisions and the data: the report model, its
//! reduction to leaks, the session that orders the steps of a run, and the
//! listing of a crate's executables from its metadata. The processes,
//! sockets and XML or JSON decoding are left to the caller.

pub mod leak;
pub mod metadata;
pub mod report;
pub mod session;
pub mod text;

pub use leak::{valgrind, Function, Leak};
pub use metadata::{binaries_from, Build};
pub use report::Kind;
