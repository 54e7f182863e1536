//! The report model: what valgrind's XML report holds, field for field, before
//! it is reduced to leaks.
use vstd::prelude::*;

verus! {

/// The kind of an error record, as valgrind tags it.
#[derive(Debug, Clone, Copy, PartialEq, Eq, Hash, Structural)]
pub enum Kind {
    /// Memory that is no longer reachable at all.
    LeakDefinitelyLost,
    /// Memory that is still reachable at exit.
    LeakStillReachable,
    /// Memory reachable only through other lost blocks.
    LeakIndirectlyLost,
    /// Memory reachable only through interior pointers.
    LeakPossiblyLost,
    /// A free of memory that was not allocated.
    InvalidFree,
    /// A free through the wrong deallocation function.
    MismatchedFree,
    /// A read of memory that may not be read.
    InvalidRead,
    /// A write to memory that may not be written.
    InvalidWrite,
    /// A jump to an invalid address.
    InvalidJump,
    /// Overlapping source and destination of a copy.
    Overlap,
    /// An invalid memory pool operation.
    InvalidMemPool,
    /// A condition that depends on uninitialised memory.
    UninitCondition,
    /// A use of an uninitialised value.
    UninitValue,
    /// A system call parameter that points to invalid memory.
    SyscallParam,
    /// A failed client check request.
    ClientCheck,
}

/// The resources an error record speaks of.
#[derive(Debug, Clone, Copy, PartialEq, Eq, Hash)]
pub struct Resources {
    /// Number of bytes leaked.
    pub bytes: usize,
    /// Number of blocks leaked.
    pub blocks: usize,
}

/// One raw stack frame of the report.
#[derive(Debug, Clone, PartialEq, Eq, Hash)]
pub struct Frame {
    /// The instruction pointer of the frame.
    pub instruction_pointer: u64,
    /// The object file that holds the code, if known.
    pub object: Option<String>,
    /// The source directory, if known.
    pub directory: Option<String>,
    /// The function name, if known.
    pub function: Option<String>,
    /// The source file name, if known.
    pub file: Option<String>,
    /// The source line, if known.
    pub line: Option<usize>,
}

/// One error record of the report.
#[derive(Debug, Clone, PartialEq, Eq, Hash)]
pub struct ErrorRecord {
    /// The identifier valgrind gave the record.
    pub unique: u64,
    /// The kind of the error.
    pub kind: Kind,
    /// The leaked resources.
    pub resources: Resources,
    /// The frames, most recent call first.
    pub stack_trace: Vec<Frame>,
}

/// A whole report: its error records in the order valgrind wrote them.
#[derive(Debug, Clone, PartialEq, Eq, Hash)]
pub struct Report {
    /// The error records; empty when nothing was found.
    pub errors: Vec<ErrorRecord>,
}

} // verus!
