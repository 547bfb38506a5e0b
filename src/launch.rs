//! Where the backend is looked for, how it is launched and how it is probed.

use vstd::prelude::*;
use vstd::string::*;
use crate::request::backend_origin;

verus! {

/// Seconds that the first health probe may take.
pub const PROBE_TIMEOUT_SECS: u64 = 2;

/// Seconds to wait after a launch before probing again.
pub const SETTLE_SECS: u64 = 3;

/// Seconds that the probe after a launch may take.
pub const REPROBE_TIMEOUT_SECS: u64 = 5;

/// Seconds that one proxied call may take in all.
pub const CALL_TIMEOUT_SECS: u64 = 30;

/// The index of the first candidate that exists, if any does.
pub fn first_existing(exists: &Vec<bool>) -> (r: Option<usize>)
    ensures
        match r {
            Some(i) => i < exists@.len() && exists@[i as int] && forall|j: int| 0 <= j < i ==> !exists@[j],
            None => forall|j: int| 0 <= j < exists@.len() ==> !exists@[j],
        },
{
    let mut i: usize = 0;
    while i < exists.len()
        invariant
            i <= exists@.len(),
            forall|j: int| 0 <= j < i ==> !exists@[j],
        decreases exists@.len() - i,
    {
        if exists[i] {
            return Some(i);
        }
        i = i + 1;
    }
    None
}

/// A directory where the backend may lie: a relative path, taken from the
/// current directory or from its parent.
#[derive(Debug)]
pub struct CandidateDir {
    pub from_parent: bool,
    pub relative: String,
}

/// The candidate directories, in the order in which they are tried: the
/// bundled resources, the development tree beside the current directory, the
/// current directory and the relative `../backend`.
pub open spec fn candidate_spec() -> Seq<(bool, Seq<char>)> {
    seq![
        (false, "Contents/Resources/backend"@),
        (true, "backend"@),
        (false, "backend"@),
        (false, "../backend"@),
    ]
}

/// The candidate backend directories, in order.
pub fn backend_candidates() -> (r: Vec<CandidateDir>)
    ensures
        r@.len() == candidate_spec().len(),
        forall|i: int| 0 <= i < r@.len() ==> (r@[i].from_parent, r@[i].relative@) == candidate_spec()[i],
{
    let mut r: Vec<CandidateDir> = Vec::new();
    r.push(CandidateDir { from_parent: false, relative: String::from_str("Contents/Resources/backend") });
    r.push(CandidateDir { from_parent: true, relative: String::from_str("backend") });
    r.push(CandidateDir { from_parent: false, relative: String::from_str("backend") });
    r.push(CandidateDir { from_parent: false, relative: String::from_str("../backend") });
    r
}

/// The interpreter that runs the backend on the platform.
pub fn interpreter(windows: bool) -> (r: String)
    ensures
        r@ == (if windows { "python"@ } else { "python3"@ }),
{
    if windows {
        String::from_str("python")
    } else {
        String::from_str("python3")
    }
}

/// The interpreter's arguments: the ASGI server module, the application and
/// the loopback address and port where the backend listens.
pub open spec fn launch_spec() -> Seq<Seq<char>> {
    seq!["-m"@, "uvicorn"@, "app.main:app"@, "--host"@, "127.0.0.1"@, "--port"@, "8000"@]
}

/// The arguments of the launch.
pub fn launch_arguments() -> (r: Vec<String>)
    ensures
        r@.len() == launch_spec().len(),
        forall|i: int| 0 <= i < r@.len() ==> r@[i]@ == launch_spec()[i],
{
    let mut r: Vec<String> = Vec::new();
    r.push(String::from_str("-m"));
    r.push(String::from_str("uvicorn"));
    r.push(String::from_str("app.main:app"));
    r.push(String::from_str("--host"));
    r.push(String::from_str("127.0.0.1"));
    r.push(String::from_str("--port"));
    r.push(String::from_str("8000"));
    r
}

/// The URL of the health-check path.
pub fn health_url() -> (r: String)
    ensures
        r@ == backend_origin() + "/pcc"@,
{
    String::from_str("http://127.0.0.1:8000").concat("/pcc")
}

} // verus!
