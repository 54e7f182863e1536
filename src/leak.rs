//! Leaks and the functions of their call traces, and the reduction of a
//! report to its leaks.
use vstd::prelude::*;

use crate::report::{ErrorRecord, Frame, Kind, Report};
use crate::text::{decimal, decimal_string};

verus! {

/// The view of an optional string: the characters, if there are any.
pub open spec fn opt_chars(o: Option<String>) -> Option<Seq<char>> {
    match o {
        Some(s) => Some(s@),
        None => None,
    }
}

/// What a [`Function`] holds.
pub struct FunctionModel {
    pub name: Option<Seq<char>>,
    pub file: Option<Seq<char>>,
    pub line: Option<usize>,
}

/// What a [`Leak`] holds.
pub struct LeakModel {
    pub bytes: usize,
    pub kind: Kind,
    pub stack_trace: Seq<FunctionModel>,
}

/// A single function in the call trace.
///
/// Each of its name, file and line may be absent: valgrind gives them only
/// for objects built with debug information.
#[derive(Debug, Clone, PartialEq, Eq, Hash)]
pub struct Function {
    name: Option<String>,
    file: Option<String>,
    line: Option<usize>,
}

/// A single memory leak: the number of bytes leaked, its kind and the call
/// trace that led to the allocation.
#[derive(Debug, Clone, PartialEq, Eq, Hash)]
pub struct Leak {
    bytes: usize,
    kind: Kind,
    stack_trace: Vec<Function>,
}

impl View for Function {
    type V = FunctionModel;

    closed spec fn view(&self) -> FunctionModel {
        FunctionModel {
            name: opt_chars(self.name),
            file: opt_chars(self.file),
            line: self.line,
        }
    }
}

impl View for Leak {
    type V = LeakModel;

    closed spec fn view(&self) -> LeakModel {
        LeakModel {
            bytes: self.bytes,
            kind: self.kind,
            stack_trace: self.stack_trace@.map_values(|f: Function| f@),
        }
    }
}

/// The function that a raw frame stands for: its name, file and line, and
/// nothing else.
pub open spec fn function_of(f: Frame) -> FunctionModel {
    FunctionModel { name: opt_chars(f.function), file: opt_chars(f.file), line: f.line }
}

/// The leak that an error record stands for.
pub open spec fn leak_of(e: ErrorRecord) -> LeakModel {
    LeakModel {
        bytes: e.resources.bytes,
        kind: e.kind,
        stack_trace: e.stack_trace@.map_values(|f: Frame| function_of(f)),
    }
}

/// The leaks of a report: one per error record, in the report's order.
pub open spec fn leaks_of(r: Report) -> Seq<LeakModel> {
    r.errors@.map_values(|e: ErrorRecord| leak_of(e))
}

/// The views of a list of leaks.
pub open spec fn leak_views(v: Seq<Leak>) -> Seq<LeakModel> {
    v.map_values(|l: Leak| l@)
}

/// The display form of a function: `name (file:line)`, where the part in
/// parentheses is left out without a file, `:line` without a line, and a
/// missing name reads `unknown`.
pub open spec fn display_of(f: FunctionModel) -> Seq<char> {
    let name = match f.name {
        Some(n) => n,
        None => seq!['u', 'n', 'k', 'n', 'o', 'w', 'n'],
    };
    match f.file {
        None => name,
        Some(file) => {
            let place = match f.line {
                Some(l) => file + seq![':'] + decimal(l as nat),
                None => file,
            };
            name + seq![' ', '('] + place + seq![')']
        },
    }
}

fn copy_opt(o: &Option<String>) -> (r: Option<String>)
    ensures
        opt_chars(r) == opt_chars(*o),
{
    match o {
        Some(s) => Some(s.clone()),
        None => None,
    }
}

fn opt_str(o: &Option<String>) -> (r: Option<&str>)
    ensures
        match r {
            Some(s) => opt_chars(*o) == Some(s@),
            None => opt_chars(*o) is None,
        },
{
    match o {
        Some(s) => Some(s.as_str()),
        None => None,
    }
}

impl Function {
    /// A function with the given name, file and line.
    pub fn new(name: Option<String>, file: Option<String>, line: Option<usize>) -> (r: Function)
        ensures
            r@ == (FunctionModel { name: opt_chars(name), file: opt_chars(file), line: line }),
    {
        Function { name, file, line }
    }

    /// The name of the function, if valgrind knew it.
    pub fn name(&self) -> (r: Option<&str>)
        ensures
            match r {
                Some(s) => self@.name == Some(s@),
                None => self@.name is None,
            },
    {
        opt_str(&self.name)
    }

    /// The file in which the function was defined, if valgrind knew it.
    pub fn file(&self) -> (r: Option<&str>)
        ensures
            match r {
                Some(s) => self@.file == Some(s@),
                None => self@.file is None,
            },
    {
        opt_str(&self.file)
    }

    /// The line of the call within the function, if valgrind knew it.
    pub fn line(&self) -> (r: Option<usize>)
        ensures
            r == self@.line,
    {
        self.line
    }

    /// The display form of the function: `name (file:line)`, with what is
    /// unknown left out and a missing name shown as `unknown`.
    pub fn to_string(&self) -> (r: String)
        ensures
            r@ == display_of(self@),
    {
        let mut r = match &self.name {
            Some(n) => n.clone(),
            None => {
                proof { reveal_strlit("unknown"); }
                let u = String::from_str("unknown");
                assert(u@ =~= seq!['u', 'n', 'k', 'n', 'o', 'w', 'n']);
                u
            },
        };
        if let Some(file) = &self.file {
            proof {
                reveal_strlit(" (");
                reveal_strlit(":");
                reveal_strlit(")");
            }
            r.append(" (");
            r.append(file.as_str());
            if let Some(line) = self.line {
                r.append(":");
                let digits = decimal_string(line);
                r.append(digits.as_str());
            }
            r.append(")");
            assert(r@ =~= display_of(self@));
        }
        r
    }
}

impl Leak {
    /// A leak of `bytes` bytes of the given kind, with its call trace.
    pub fn new(bytes: usize, kind: Kind, stack_trace: Vec<Function>) -> (r: Leak)
        ensures
            r@ == (LeakModel {
                bytes: bytes,
                kind: kind,
                stack_trace: stack_trace@.map_values(|f: Function| f@),
            }),
    {
        Leak { bytes, kind, stack_trace }
    }

    /// The number of leaked bytes.
    pub fn leaked_bytes(&self) -> (r: usize)
        ensures
            r == self@.bytes,
    {
        self.bytes
    }

    /// The kind of the leak.
    pub fn leak_kind(&self) -> (r: Kind)
        ensures
            r == self@.kind,
    {
        self.kind
    }

    /// The call trace that led to the leak, most recent call first.
    pub fn back_trace(&self) -> (r: &Vec<Function>)
        ensures
            r@.map_values(|f: Function| f@) == self@.stack_trace,
    {
        &self.stack_trace
    }
}

fn function_from(f: &Frame) -> (r: Function)
    ensures
        r@ == function_of(*f),
{
    Function { name: copy_opt(&f.function), file: copy_opt(&f.file), line: f.line }
}

fn leak_from(e: &ErrorRecord) -> (r: Leak)
    ensures
        r@ == leak_of(*e),
{
    let mut trace: Vec<Function> = Vec::new();
    let n = e.stack_trace.len();
    for i in 0..n
        invariant
            n == e.stack_trace@.len(),
            trace@.len() == i,
            forall|k: int| 0 <= k < i ==> #[trigger] trace@[k]@ == function_of(e.stack_trace@[k]),
    {
        trace.push(function_from(&e.stack_trace[i]));
    }
    let r = Leak { bytes: e.resources.bytes, kind: e.kind, stack_trace: trace };
    assert(r@.stack_trace =~= leak_of(*e).stack_trace);
    r
}

/// The leaks of a parsed report: one for each error record, in the order of
/// the report, each with the record's byte count and kind and with the name,
/// file and line of each of its frames, in the frames' order. An empty list
/// means that no leak was found.
pub fn valgrind(report: &Report) -> (leaks: Vec<Leak>)
    ensures
        leak_views(leaks@) == leaks_of(*report),
{
    let mut leaks: Vec<Leak> = Vec::new();
    let n = report.errors.len();
    for i in 0..n
        invariant
            n == report.errors@.len(),
            leaks@.len() == i,
            forall|k: int| 0 <= k < i ==> #[trigger] leaks@[k]@ == leak_of(report.errors@[k]),
    {
        leaks.push(leak_from(&report.errors[i]));
    }
    assert(leak_views(leaks@) =~= leaks_of(*report));
    leaks
}

/// The leaks of a report follow its error records one for one: as many
/// leaks as records, in the same order, each with its record's byte count
/// and kind.
pub proof fn lemma_leaks_follow_records(r: Report, leaks: Seq<Leak>)
    requires
        leak_views(leaks) == leaks_of(r),
    ensures
        leaks.len() == r.errors@.len(),
        forall|i: int|
            0 <= i < leaks.len() ==> (#[trigger] leaks[i])@.bytes == r.errors@[i].resources.bytes
                && leaks[i]@.kind == r.errors@[i].kind,
{
    assert(leak_views(leaks).len() == leaks.len());
    assert(leaks_of(r).len() == r.errors@.len());
    assert forall|i: int| 0 <= i < leaks.len() implies (#[trigger] leaks[i])@.bytes
        == r.errors@[i].resources.bytes && leaks[i]@.kind == r.errors@[i].kind by {
        assert(leak_views(leaks)[i] == leaks[i]@);
        assert(leaks_of(r)[i] == leak_of(r.errors@[i]));
    }
}

/// The display form keeps each absence visible: without a name it begins
/// with `unknown`; with a file but no line it reads `name (file)`; without a
/// file it is the name alone.
pub proof fn lemma_display_of_absent_fields(f: FunctionModel)
    ensures
        f.name is None ==> display_of(f).len() >= 7 && display_of(f).subrange(0, 7) == seq![
            'u',
            'n',
            'k',
            'n',
            'o',
            'w',
            'n',
        ],
        f.name is Some && f.file is Some && f.line is None ==> display_of(f) == f.name->Some_0
            + seq![' ', '('] + f.file->Some_0 + seq![')'],
        f.name is Some && f.file is None ==> display_of(f) == f.name->Some_0,
{
    let u = seq!['u', 'n', 'k', 'n', 'o', 'w', 'n'];
    if f.name is None {
        match f.file {
            None => assert(display_of(f).subrange(0, 7) =~= u),
            Some(file) => {
                let place = match f.line {
                    Some(l) => file + seq![':'] + decimal(l as nat),
                    None => file,
                };
                assert(display_of(f) == u + seq![' ', '('] + place + seq![')']);
                assert(display_of(f).subrange(0, 7) =~= u);
            },
        }
    }
}

} // verus!
