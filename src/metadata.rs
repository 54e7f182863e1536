//! The executables of a crate, from the metadata that `cargo metadata`
//! reports for it.
use vstd::prelude::*;

verus! {

/// The possible build types.
#[derive(Debug, Clone, Copy, PartialEq, Eq, Hash, Structural)]
pub enum Build {
    /// This is a debug build.
    Debug,
    /// This is a release build.
    Release,
}

impl Default for Build {
    fn default() -> (r: Self)
        ensures
            r == Build::Debug,
    {
        Build::Debug
    }
}

/// The kinds of a cargo target.
#[derive(Debug, Clone, Copy, PartialEq, Eq, Hash, Structural)]
pub enum TargetKind {
    Binary,
    Example,
    Test,
    Bench,
    CustomBuild,
    Library,
    ProcMacro,
    DyLib,
    CDyLib,
    StaticLib,
    RLib,
}

/// The crate types of a cargo target.
#[derive(Debug, Clone, Copy, PartialEq, Eq, Hash, Structural)]
pub enum CrateType {
    Binary,
    Library,
    ProcMacro,
    DyLib,
    CDyLib,
    StaticLib,
    RLib,
}

/// One target of a package.
#[derive(Debug, Clone, PartialEq, Eq, Hash)]
pub struct Target {
    pub name: String,
    pub kind: Vec<TargetKind>,
    pub crate_types: Vec<CrateType>,
}

/// One package of a workspace.
#[derive(Debug, Clone, PartialEq, Eq, Hash)]
pub struct Package {
    /// The path of the package's `Cargo.toml`.
    pub manifest_path: String,
    pub targets: Vec<Target>,
}

/// The metadata of a workspace.
#[derive(Debug, Clone, PartialEq, Eq, Hash)]
pub struct Metadata {
    pub packages: Vec<Package>,
    /// The directory that builds go to.
    pub target_directory: String,
}

/// Why the executables of a crate could not be listed.
#[derive(Debug, Clone, PartialEq, Eq, Hash)]
pub enum BinariesError {
    /// A target builds an executable of a kind that is not supported (a
    /// plain test, a build script); it carries the target's name.
    Unsupported(String),
}

/// The path `a` joined with `b`, with one `/` between them.
pub open spec fn join(a: Seq<char>, b: Seq<char>) -> Seq<char> {
    if a.len() == 0 {
        b
    } else if a.last() == '/' {
        a + b
    } else {
        a + seq!['/'] + b
    }
}

/// The name of a build's directory.
pub open spec fn build_dir(b: Build) -> Seq<char> {
    match b {
        Build::Debug => seq!['d', 'e', 'b', 'u', 'g'],
        Build::Release => seq!['r', 'e', 'l', 'e', 'a', 's', 'e'],
    }
}

/// Whether a target builds an executable.
pub open spec fn is_executable(t: Target) -> bool {
    t.crate_types@.contains(CrateType::Binary)
}

/// The path of the executable of target `t` under the build directory `dir`:
/// binaries lie in it, examples in `examples`, benchmarks in `benches`. Other
/// kinds have none.
pub open spec fn executable_path(t: Target, dir: Seq<char>) -> Option<Seq<char>> {
    if t.kind@.len() == 0 {
        None
    } else {
        match t.kind@[0] {
            TargetKind::Binary => Some(join(dir, t.name@)),
            TargetKind::Example => Some(join(join(dir, seq!['e', 'x', 'a', 'm', 'p', 'l', 'e', 's']), t.name@)),
            TargetKind::Bench => Some(join(join(dir, seq!['b', 'e', 'n', 'c', 'h', 'e', 's']), t.name@)),
            _ => None,
        }
    }
}

/// The executables of the targets `ts`, in order, or the name of the first
/// executable target whose path is unknown.
pub open spec fn target_paths(ts: Seq<Target>, dir: Seq<char>) -> Result<Seq<Seq<char>>, Seq<char>>
    decreases ts.len(),
{
    if ts.len() == 0 {
        Ok(seq![])
    } else {
        match target_paths(ts.drop_last(), dir) {
            Err(e) => Err(e),
            Ok(ps) => if !is_executable(ts.last()) {
                Ok(ps)
            } else {
                match executable_path(ts.last(), dir) {
                    Some(p) => Ok(ps.push(p)),
                    None => Err(ts.last().name@),
                }
            },
        }
    }
}

/// The executables of the packages `ps` whose manifest is `requested`, in
/// order, or the name of the first executable target whose path is unknown.
pub open spec fn package_paths(ps: Seq<Package>, requested: Seq<char>, dir: Seq<char>) -> Result<
    Seq<Seq<char>>,
    Seq<char>,
>
    decreases ps.len(),
{
    if ps.len() == 0 {
        Ok(seq![])
    } else {
        match package_paths(ps.drop_last(), requested, dir) {
            Err(e) => Err(e),
            Ok(acc) => if ps.last().manifest_path@ != requested {
                Ok(acc)
            } else {
                match target_paths(ps.last().targets@, dir) {
                    Err(e) => Err(e),
                    Ok(more) => Ok(acc + more),
                }
            },
        }
    }
}

/// The build directory of `m` for build `b`.
pub open spec fn build_directory(m: Metadata, b: Build) -> Seq<char> {
    join(m.target_directory@, build_dir(b))
}

fn join_path(a: &str, b: &str) -> (r: String)
    ensures
        r@ == join(a@, b@),
{
    let n = a.unicode_len();
    if n == 0 {
        String::from_str(b)
    } else if a.get_char(n - 1) == '/' {
        let mut r = String::from_str(a);
        r.append(b);
        r
    } else {
        let mut r = String::from_str(a);
        proof { reveal_strlit("/"); }
        r.append("/");
        r.append(b);
        assert(r@ =~= join(a@, b@));
        r
    }
}

fn path_of(t: &Target, dir: &str) -> (r: Option<String>)
    ensures
        match r {
            Some(p) => executable_path(*t, dir@) == Some(p@),
            None => executable_path(*t, dir@) is None,
        },
{
    if t.kind.len() == 0 {
        return None;
    }
    match t.kind[0] {
        TargetKind::Binary => Some(join_path(dir, t.name.as_str())),
        TargetKind::Example => {
            proof { reveal_strlit("examples"); }
            let sub = join_path(dir, "examples");
            assert("examples"@ =~= seq!['e', 'x', 'a', 'm', 'p', 'l', 'e', 's']);
            Some(join_path(sub.as_str(), t.name.as_str()))
        },
        TargetKind::Bench => {
            proof { reveal_strlit("benches"); }
            let sub = join_path(dir, "benches");
            assert("benches"@ =~= seq!['b', 'e', 'n', 'c', 'h', 'e', 's']);
            Some(join_path(sub.as_str(), t.name.as_str()))
        },
        _ => None,
    }
}

fn builds_executable(t: &Target) -> (r: bool)
    ensures
        r == is_executable(*t),
{
    let n = t.crate_types.len();
    for i in 0..n
        invariant
            n == t.crate_types@.len(),
            forall|k: int| 0 <= k < i ==> t.crate_types@[k] != CrateType::Binary,
    {
        if t.crate_types[i] == CrateType::Binary {
            return true;
        }
    }
    false
}

fn same_text(a: &str, b: &str) -> (r: bool)
    ensures
        r == (a@ == b@),
{
    let n = a.unicode_len();
    let m = b.unicode_len();
    if n != m {
        return false;
    }
    for i in 0..n
        invariant
            n == a@.len(),
            m == b@.len(),
            n == m,
            forall|k: int| 0 <= k < i ==> a@[k] == b@[k],
    {
        if a.get_char(i) != b.get_char(i) {
            return false;
        }
    }
    assert(a@ =~= b@);
    true
}

fn target_paths_of(ts: &Vec<Target>, dir: &str) -> (r: Result<Vec<String>, String>)
    ensures
        match r {
            Ok(v) => target_paths(ts@, dir@) == Ok::<Seq<Seq<char>>, Seq<char>>(v@.map_values(|s: String| s@)),
            Err(name) => target_paths(ts@, dir@) == Err::<Seq<Seq<char>>, Seq<char>>(name@),
        },
{
    let mut out: Vec<String> = Vec::new();
    let m = ts.len();
    assert(ts@.subrange(0, 0) =~= Seq::<Target>::empty());
    assert(out@.map_values(|s: String| s@) =~= Seq::<Seq<char>>::empty());
    for j in 0..m
        invariant
            m == ts@.len(),
            target_paths(ts@.subrange(0, j as int), dir@) == Ok::<Seq<Seq<char>>, Seq<char>>(
                out@.map_values(|s: String| s@),
            ),
    {
        let t = &ts[j];
        assert(ts@.subrange(0, j + 1).drop_last() =~= ts@.subrange(0, j as int));
        if builds_executable(t) {
            match path_of(t, dir) {
                Some(path) => {
                    let ghost before = out@.map_values(|s: String| s@);
                    out.push(path);
                    assert(out@.map_values(|s: String| s@) =~= before.push(path@));
                },
                None => {
                    proof {
                        lemma_target_paths_err(ts@, dir@, j as int + 1);
                    }
                    return Err(t.name.clone());
                },
            }
        }
    }
    assert(ts@.subrange(0, m as int) =~= ts@);
    Ok(out)
}

/// The executables of the package of `package` whose manifest is at
/// `requested` (a canonical path), for the build `build`: its binaries,
/// examples and benchmarks, each under the build directory, in the order of
/// the metadata. The error names the first executable target of another
/// kind.
pub fn binaries_from(package: &Metadata, requested: &str, build: Build) -> (r: Result<Vec<String>, BinariesError>)
    ensures
        match r {
            Ok(v) => package_paths(package.packages@, requested@, build_directory(*package, build))
                == Ok::<Seq<Seq<char>>, Seq<char>>(v@.map_values(|s: String| s@)),
            Err(BinariesError::Unsupported(name)) => package_paths(
                package.packages@,
                requested@,
                build_directory(*package, build),
            ) == Err::<Seq<Seq<char>>, Seq<char>>(name@),
        },
{
    let sub = match build {
        Build::Debug => {
            proof { reveal_strlit("debug"); }
            let s = "debug";
            assert(s@ =~= build_dir(build));
            s
        },
        Build::Release => {
            proof { reveal_strlit("release"); }
            let s = "release";
            assert(s@ =~= build_dir(build));
            s
        },
    };
    let dir = join_path(package.target_directory.as_str(), sub);
    let ghost ps = package.packages@;
    let mut out: Vec<String> = Vec::new();
    let n = package.packages.len();
    assert(ps.subrange(0, 0) =~= Seq::<Package>::empty());
    assert(out@.map_values(|s: String| s@) =~= Seq::<Seq<char>>::empty());
    for i in 0..n
        invariant
            n == ps.len(),
            ps == package.packages@,
            dir@ == build_directory(*package, build),
            package_paths(ps.subrange(0, i as int), requested@, dir@)
                == Ok::<Seq<Seq<char>>, Seq<char>>(out@.map_values(|s: String| s@)),
    {
        let p = &package.packages[i];
        assert(ps.subrange(0, i + 1).drop_last() =~= ps.subrange(0, i as int));
        if same_text(p.manifest_path.as_str(), requested) {
            match target_paths_of(&p.targets, dir.as_str()) {
                Ok(mut more) => {
                    let ghost before = out@.map_values(|s: String| s@);
                    let ghost added = more@.map_values(|s: String| s@);
                    out.append(&mut more);
                    assert(out@.map_values(|s: String| s@) =~= before + added);
                },
                Err(name) => {
                    proof {
                        lemma_package_paths_err(ps, requested@, dir@, i as int + 1);
                    }
                    return Err(BinariesError::Unsupported(name));
                },
            }
        }
    }
    assert(ps.subrange(0, n as int) =~= ps);
    Ok(out)
}

proof fn lemma_target_paths_err(ts: Seq<Target>, dir: Seq<char>, k: int)
    requires
        0 <= k <= ts.len(),
        target_paths(ts.subrange(0, k), dir) is Err,
    ensures
        target_paths(ts, dir) == target_paths(ts.subrange(0, k), dir),
    decreases ts.len() - k,
{
    if k < ts.len() {
        assert(ts.subrange(0, k + 1).drop_last() =~= ts.subrange(0, k));
        lemma_target_paths_err(ts, dir, k + 1);
    } else {
        assert(ts.subrange(0, k) =~= ts);
    }
}

proof fn lemma_package_paths_err(ps: Seq<Package>, requested: Seq<char>, dir: Seq<char>, k: int)
    requires
        0 <= k <= ps.len(),
        package_paths(ps.subrange(0, k), requested, dir) is Err,
    ensures
        package_paths(ps, requested, dir) == package_paths(ps.subrange(0, k), requested, dir),
    decreases ps.len() - k,
{
    if k < ps.len() {
        assert(ps.subrange(0, k + 1).drop_last() =~= ps.subrange(0, k));
        lemma_package_paths_err(ps, requested, dir, k + 1);
    } else {
        assert(ps.subrange(0, k) =~= ps);
    }
}

} // verus!
