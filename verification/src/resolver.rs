//! The backend resolver: which descriptor file drives this host.
//!
//! A cached selection is trusted unconditionally — it names the one file to
//! load, and the descriptor directory is not read at all. Without one, the
//! directory's candidates are tried in the order the file system yields
//! them: each is evaluated, a parse failure aborts the scan at once, and
//! the first candidate whose binary resolves on the search path wins;
//! later candidates are never evaluated. The caller performs the reading
//! and evaluating and feeds each outcome back in.

use vstd::prelude::*;
use crate::errors::Error;
use crate::errors::ErrorV;
use crate::from_file::FromFile;
use crate::script::ScriptValues;

verus! {

/// Relies on which::which: whether `program` names an executable
/// resolvable on the current search path. The answer depends on the host's
/// state, so nothing more is promised of it.
#[verifier::external_body]
pub fn program_exists(program: &str) -> bool {
    match which::which(program) {
        Ok(_) => true,
        Err(_) => false,
    }
}

/// The resolver's first decision: what to do for one backend kind.
#[derive(Debug)]
pub enum ResolveAction {
    /// Load exactly this file from the descriptor directory; nothing else
    /// is read and the cache is left as it is.
    LoadCachedFile(String),
    /// No cached selection: enumerate the descriptor directory and probe
    /// its candidates in order.
    EnumerateDirectory,
}

/// Decide from the cached selection alone. A cached file name is followed
/// without re-validation; only an empty cache leads to the directory.
pub fn resolve_action(cached: &Option<String>) -> (r: ResolveAction)
    ensures
        (match cached {
            Option::Some(n) => r matches ResolveAction::LoadCachedFile(m) && m@ == n@,
            Option::None => r matches ResolveAction::EnumerateDirectory,
        }),
{
    match cached {
        Option::Some(n) => ResolveAction::LoadCachedFile(n.clone()),
        Option::None => ResolveAction::EnumerateDirectory,
    }
}

/// What the probing scan does after one candidate.
#[derive(Debug)]
pub enum ProbeDecision<D> {
    /// This candidate wins: its descriptor, and the file name to cache.
    Accept(D, String),
    /// This candidate's binary is absent; try the next one.
    Continue,
    /// The scan stops here with this error (a candidate that fails to
    /// evaluate or to parse aborts the whole scan).
    Fail(Error),
}

/// The probing verdict once the host has answered whether the candidate's
/// binary is present: verified for every possible answer.
pub fn decide_probe<D: FromFile>(descriptor: D, file_name: String, binary_present: bool) -> (r:
    ProbeDecision<D>)
    ensures
        binary_present ==> r == ProbeDecision::Accept(descriptor, file_name),
        !binary_present ==> r matches ProbeDecision::Continue,
{
    if binary_present {
        ProbeDecision::Accept(descriptor, file_name)
    } else {
        ProbeDecision::Continue
    }
}

/// Judge one candidate of the probing scan. `outcome` is what evaluating
/// the candidate file produced. An evaluation or extraction error fails
/// the scan; otherwise the candidate is accepted with its file name, or
/// passed over, according to whether its binary resolves on this host.
pub fn probe_candidate<D: FromFile>(outcome: Result<ScriptValues, Error>, file_name: String) -> (r:
    ProbeDecision<D>)
    ensures
        (match outcome {
            Result::Err(e) => r matches ProbeDecision::Fail(e2) && e2@ == e@,
            Result::Ok(v) => (match D::spec_from_values(v@) {
                Result::Err(pe) => r matches ProbeDecision::Fail(e2) && e2@ == pe,
                Result::Ok(dv) => (r matches ProbeDecision::Accept(d, n) && d@ == dv && n@
                    == file_name@) || (r matches ProbeDecision::Continue),
            }),
        }),
{
    match outcome {
        Result::Err(e) => ProbeDecision::Fail(e),
        Result::Ok(values) => match D::from_values(&values) {
            Result::Err(e) => ProbeDecision::Fail(e),
            Result::Ok(d) => {
                let present = program_exists(d.get_binary_name());
                decide_probe(d, file_name, present)
            },
        },
    }
}

/// The probing scan's terminal outcome: a scan that ran out of candidates
/// without accepting one — no descriptor's binary resolved on this host —
/// finds no backend, and hands the caller nothing to cache.
pub fn scan_exhausted<D: FromFile>() -> (r: Result<(D, Option<String>), Error>)
    ensures
        r matches Err(e) && e@ == ErrorV::NoBackendFound,
{
    Err(Error::NoBackendFound)
}

/// Complete a cache hit. `outcome` is what evaluating the cached file
/// produced; errors pass through unchanged. On success the second element
/// is always `None`: a cache hit never rewrites the cache.
pub fn load_cached<D: FromFile>(outcome: Result<ScriptValues, Error>) -> (r: Result<
    (D, Option<String>),
    Error,
>)
    ensures
        (match outcome {
            Result::Err(e) => r matches Err(e2) && e2@ == e@,
            Result::Ok(v) => (match D::spec_from_values(v@) {
                Result::Err(pe) => r matches Err(e2) && e2@ == pe,
                Result::Ok(dv) => r matches Ok(p) && p.0@ == dv && p.1 is None,
            }),
        }),
{
    match outcome {
        Result::Err(e) => Err(e),
        Result::Ok(values) => match D::from_values(&values) {
            Result::Err(e) => Err(e),
            Result::Ok(d) => Ok((d, Option::None)),
        },
    }
}

} // verus!
