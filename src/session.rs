//! One run of valgrind, as a sequence of decisions: bind a listener on an
//! ephemeral loopback port, start valgrind so that it streams its XML report
//! to that port, accept its connection, wait for it to exit, and read the
//! report only when it succeeded. The caller performs each action and hands
//! back what came of it.
use vstd::prelude::*;

use crate::leak::{leak_views, leaks_of, valgrind, Leak, LeakModel};
use crate::report::Report;
use crate::text::{decimal, decimal_string, tool_error_message, tool_message};

verus! {

/// An IPv4 socket address: four octets and a port.
#[derive(Debug, Clone, Copy, PartialEq, Eq, Hash)]
pub struct SocketAddress {
    pub octets: (u8, u8, u8, u8),
    pub port: u16,
}

/// Why a run failed. Each failing step has a variant of its own.
#[derive(Debug, Clone, PartialEq, Eq, Hash)]
pub enum AnalysisError {
    /// The listener could not be bound.
    Bind(String),
    /// The listener's address could not be resolved.
    Address(String),
    /// valgrind could not be started.
    Spawn(String),
    /// valgrind's connection could not be accepted.
    Accept(String),
    /// Waiting for valgrind failed.
    Wait(String),
    /// valgrind exited with a failure status; its own explanation.
    Tool(String),
    /// Reading the report from the connection failed.
    Transport(String),
    /// The report is not a well-formed valgrind XML report.
    Malformed(String),
}

/// What the caller is to do next.
pub enum Action {
    /// Bind a TCP listener to this address.
    Bind(SocketAddress),
    /// Ask the listener for the address it was bound to.
    ResolveAddress,
    /// Start `program` with `args`.
    Spawn { program: String, args: Vec<String> },
    /// Accept one connection on the listener.
    Accept,
    /// Wait for the child process to exit.
    Wait,
    /// Read the report from the accepted connection and parse it.
    Parse,
    /// The run is over, with this outcome.
    Finish(Result<Vec<Leak>, AnalysisError>),
}

/// What came of an action.
pub enum Event {
    Bound,
    BindFailed(String),
    Resolved(SocketAddress),
    AddressFailed(String),
    Spawned,
    SpawnFailed(String),
    Accepted,
    AcceptFailed(String),
    /// The child exited; whether its status was success, and its error stream.
    Exited { success: bool, stderr: String },
    WaitFailed(String),
    Parsed(Report),
    ParseFailed(String),
    ReadFailed(String),
}

/// Where a run stands.
#[derive(Debug, Clone, PartialEq, Eq)]
pub enum Stage {
    Binding,
    Resolving,
    Spawning,
    Connecting,
    Running,
    /// The connection failed; the child is still to be waited for.
    Reaping(String),
    Reading,
    Finished,
}

/// A run of valgrind on one program.
pub struct Session {
    stage: Stage,
    path: String,
}

/// Whether `e` is a possible outcome of the action taken in stage `s`.
pub open spec fn answers(s: Stage, e: Event) -> bool {
    match s {
        Stage::Binding => e is Bound || e is BindFailed,
        Stage::Resolving => e is Resolved || e is AddressFailed,
        Stage::Spawning => e is Spawned || e is SpawnFailed,
        Stage::Connecting => e is Accepted || e is AcceptFailed,
        Stage::Running => e is Exited || e is WaitFailed,
        Stage::Reaping(_) => e is Exited || e is WaitFailed,
        Stage::Reading => e is Parsed || e is ParseFailed || e is ReadFailed,
        Stage::Finished => false,
    }
}

/// The loopback address with port zero, so that the system picks the port.
pub open spec fn listen_address() -> SocketAddress {
    SocketAddress { octets: (127, 0, 0, 1), port: 0 }
}

/// The text form `a.b.c.d:port` of an address.
pub open spec fn address_text(a: SocketAddress) -> Seq<char> {
    decimal(a.octets.0 as nat) + seq!['.'] + decimal(a.octets.1 as nat) + seq!['.']
        + decimal(a.octets.2 as nat) + seq!['.'] + decimal(a.octets.3 as nat) + seq![':']
        + decimal(a.port as nat)
}

/// The program that is run.
pub open spec fn tool_program() -> Seq<char> {
    seq!['v', 'a', 'l', 'g', 'r', 'i', 'n', 'd']
}

/// The arguments valgrind gets: a full leak check, every leak kind, XML
/// output, the XML sent to `a`, then the program to check.
pub open spec fn tool_args(a: SocketAddress, path: Seq<char>) -> Seq<Seq<char>> {
    seq![
        "--leak-check=full"@,
        "--show-leak-kinds=all"@,
        "--xml=yes"@,
        "--xml-socket="@ + address_text(a),
        path,
    ]
}

/// The outcome of a run whose report was parsed into `r`.
pub open spec fn finished_with_leaks(a: Action, r: Report) -> bool {
    match a {
        Action::Finish(Ok(leaks)) => leak_views(leaks@) == leaks_of(r),
        _ => false,
    }
}

/// The outcome of a failed run.
pub open spec fn finished_with(a: Action, err: AnalysisError) -> bool {
    match a {
        Action::Finish(Err(e)) => e == err,
        _ => false,
    }
}

/// The next stage and action of a run in stage `s` of the program at `path`
/// that gets `e`.
pub open spec fn next(s: Stage, path: Seq<char>, e: Event, s2: Stage, a: Action) -> bool {
    match (s, e) {
        (Stage::Binding, Event::Bound) => s2 == Stage::Resolving && a == Action::ResolveAddress,
        (Stage::Binding, Event::BindFailed(m)) => s2 == Stage::Finished && finished_with(a, AnalysisError::Bind(m)),
        (Stage::Resolving, Event::Resolved(addr)) => s2 == Stage::Spawning && match a {
            Action::Spawn { program, args } => program@ == tool_program()
                && args@.map_values(|x: String| x@) == tool_args(addr, path),
            _ => false,
        },
        (Stage::Resolving, Event::AddressFailed(m)) => s2 == Stage::Finished && finished_with(a, AnalysisError::Address(m)),
        (Stage::Spawning, Event::Spawned) => s2 == Stage::Connecting && a == Action::Accept,
        (Stage::Spawning, Event::SpawnFailed(m)) => s2 == Stage::Finished && finished_with(a, AnalysisError::Spawn(m)),
        (Stage::Connecting, Event::Accepted) => s2 == Stage::Running && a == Action::Wait,
        (Stage::Connecting, Event::AcceptFailed(m)) => s2 == Stage::Reaping(m) && a == Action::Wait,
        (Stage::Running, Event::Exited { success, stderr }) => if success {
            s2 == Stage::Reading && a == Action::Parse
        } else {
            s2 == Stage::Finished && match a {
                Action::Finish(Err(AnalysisError::Tool(m))) => m@ == tool_message(stderr@),
                _ => false,
            }
        },
        (Stage::Running, Event::WaitFailed(m)) => s2 == Stage::Finished && finished_with(a, AnalysisError::Wait(m)),
        (Stage::Reaping(m), _) => s2 == Stage::Finished && finished_with(a, AnalysisError::Accept(m)),
        (Stage::Reading, Event::Parsed(r)) => s2 == Stage::Finished && finished_with_leaks(a, r),
        (Stage::Reading, Event::ParseFailed(m)) => s2 == Stage::Finished && finished_with(a, AnalysisError::Malformed(m)),
        (Stage::Reading, Event::ReadFailed(m)) => s2 == Stage::Finished && finished_with(a, AnalysisError::Transport(m)),
        _ => false,
    }
}

fn address_string(a: SocketAddress) -> (r: String)
    ensures
        r@ == address_text(a),
{
    proof {
        reveal_strlit(".");
        reveal_strlit(":");
    }
    let mut r = decimal_string(a.octets.0 as usize);
    r.append(".");
    r.append(decimal_string(a.octets.1 as usize).as_str());
    r.append(".");
    r.append(decimal_string(a.octets.2 as usize).as_str());
    r.append(".");
    r.append(decimal_string(a.octets.3 as usize).as_str());
    r.append(":");
    r.append(decimal_string(a.port as usize).as_str());
    assert(r@ =~= address_text(a));
    r
}

/// The arguments to start valgrind with, so that it checks the program at
/// `path` and sends its XML report to `address`.
pub fn valgrind_args(address: SocketAddress, path: &str) -> (r: Vec<String>)
    ensures
        r@.map_values(|s: String| s@) == tool_args(address, path@),
{
    let mut socket = String::from_str("--xml-socket=");
    socket.append(address_string(address).as_str());
    let mut r: Vec<String> = Vec::new();
    r.push(String::from_str("--leak-check=full"));
    r.push(String::from_str("--show-leak-kinds=all"));
    r.push(String::from_str("--xml=yes"));
    r.push(socket);
    r.push(String::from_str(path));
    assert(r@.map_values(|s: String| s@) =~= tool_args(address, path@));
    r
}

impl Session {
    /// The stage the run is in.
    pub closed spec fn stage(&self) -> Stage {
        self.stage
    }

    /// The program that is checked.
    pub closed spec fn path(&self) -> Seq<char> {
        self.path@
    }

    /// A run of valgrind on the program at `path`, and its first action:
    /// bind the listener to an ephemeral loopback port.
    pub fn new(path: String) -> (r: (Session, Action))
        ensures
            r.0.stage() == Stage::Binding,
            r.0.path() == path@,
            r.1 == Action::Bind(listen_address()),
    {
        (Session { stage: Stage::Binding, path }, Action::Bind(SocketAddress { octets: (127, 0, 0, 1), port: 0 }))
    }

    /// Whether `event` is a possible outcome of the last action.
    pub fn accepts(&self, event: &Event) -> (r: bool)
        ensures
            r == answers(self.stage(), *event),
    {
        match (&self.stage, event) {
            (Stage::Binding, Event::Bound) | (Stage::Binding, Event::BindFailed(_)) => true,
            (Stage::Resolving, Event::Resolved(_)) | (Stage::Resolving, Event::AddressFailed(_)) => true,
            (Stage::Spawning, Event::Spawned) | (Stage::Spawning, Event::SpawnFailed(_)) => true,
            (Stage::Connecting, Event::Accepted) | (Stage::Connecting, Event::AcceptFailed(_)) => true,
            (Stage::Running, Event::Exited { .. }) | (Stage::Running, Event::WaitFailed(_)) => true,
            (Stage::Reaping(_), Event::Exited { .. }) | (Stage::Reaping(_), Event::WaitFailed(_)) => true,
            (Stage::Reading, Event::Parsed(_)) | (Stage::Reading, Event::ParseFailed(_))
            | (Stage::Reading, Event::ReadFailed(_)) => true,
            _ => false,
        }
    }
    /// Takes the outcome of the last action and decides the next one. A
    /// failed step ends the run with its own error; a failed connection
    /// still waits for the child before it ends the run. The report is read
    /// only after valgrind exited successfully; a failure status ends the run
    /// with valgrind's own explanation, and the report is never read.
    pub fn step(&mut self, event: Event) -> (action: Action)
        requires
            answers(old(self).stage(), event),
        ensures
            final(self).path() == old(self).path(),
            next(old(self).stage(), old(self).path(), event, final(self).stage(), action),
    {
        let (stage, action) = match (&self.stage, event) {
            (Stage::Binding, Event::Bound) => (Stage::Resolving, Action::ResolveAddress),
            (Stage::Resolving, Event::Resolved(addr)) => {
                let program = String::from_str("valgrind");
                proof { reveal_strlit("valgrind"); }
                assert(program@ =~= tool_program());
                let args = valgrind_args(addr, self.path.as_str());
                (Stage::Spawning, Action::Spawn { program, args })
            },
            (Stage::Spawning, Event::Spawned) => (Stage::Connecting, Action::Accept),
            (Stage::Connecting, Event::Accepted) => (Stage::Running, Action::Wait),
            (Stage::Connecting, Event::AcceptFailed(m)) => (Stage::Reaping(m), Action::Wait),
            (Stage::Running, Event::Exited { success, stderr }) => {
                if success {
                    (Stage::Reading, Action::Parse)
                } else {
                    let m = tool_error_message(stderr.as_str());
                    (Stage::Finished, Action::Finish(Err(AnalysisError::Tool(m))))
                }
            },
            (Stage::Reaping(m), _) => (Stage::Finished, Action::Finish(Err(AnalysisError::Accept(m.clone())))),
            (Stage::Reading, Event::Parsed(r)) => {
                let leaks = valgrind(&r);
                (Stage::Finished, Action::Finish(Ok(leaks)))
            },
            (_, Event::BindFailed(m)) => (Stage::Finished, Action::Finish(Err(AnalysisError::Bind(m)))),
            (_, Event::AddressFailed(m)) => (Stage::Finished, Action::Finish(Err(AnalysisError::Address(m)))),
            (_, Event::SpawnFailed(m)) => (Stage::Finished, Action::Finish(Err(AnalysisError::Spawn(m)))),
            (_, Event::WaitFailed(m)) => (Stage::Finished, Action::Finish(Err(AnalysisError::Wait(m)))),
            (_, Event::ParseFailed(m)) => (Stage::Finished, Action::Finish(Err(AnalysisError::Malformed(m)))),
            (_, Event::ReadFailed(m)) => (Stage::Finished, Action::Finish(Err(AnalysisError::Transport(m)))),
            // Every other pair is ruled out by `answers`.
            (_, _) => (Stage::Finished, Action::Wait),
        };
        self.stage = stage;
        action
    }
}

/// A report without error records ends the run with an empty list of leaks
/// and no error.
pub proof fn lemma_leak_free_run(path: Seq<char>, r: Report, s2: Stage, a: Action)
    requires
        r.errors@.len() == 0,
        next(Stage::Reading, path, Event::Parsed(r), s2, a),
    ensures
        s2 == Stage::Finished,
        match a {
            Action::Finish(Ok(leaks)) => leaks@.len() == 0,
            _ => false,
        },
{
    if let Action::Finish(Ok(leaks)) = a {
        assert(leak_views(leaks@).len() == leaks@.len());
    }
}

/// When valgrind exits with a failure status the run ends with a tool
/// failure, carrying valgrind's own explanation, and the report is never
/// read.
pub proof fn lemma_tool_failure_skips_report(path: Seq<char>, stderr: String, s2: Stage, a: Action)
    requires
        next(Stage::Running, path, Event::Exited { success: false, stderr }, s2, a),
    ensures
        s2 == Stage::Finished,
        a !is Parse,
        match a {
            Action::Finish(Err(AnalysisError::Tool(m))) => m@ == tool_message(stderr@),
            _ => false,
        },
{
}

/// A report that cannot be parsed ends the run with a malformed-report
/// error, and no leaks.
pub proof fn lemma_malformed_report_fails(path: Seq<char>, m: String, s2: Stage, a: Action)
    requires
        next(Stage::Reading, path, Event::ParseFailed(m), s2, a),
    ensures
        s2 == Stage::Finished,
        finished_with(a, AnalysisError::Malformed(m)),
        !(a is Finish && a->Finish_0 is Ok),
{
}

} // verus!
