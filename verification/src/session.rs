//! One run, as decisions on plain values.
//!
//! The surrounding program checks the paths, runs the planned tool
//! invocations and hands their captured output back; every decision in
//! between is made here. [`start`] validates the request and yields the
//! probing invocation; [`on_probe_result`] judges the prober's output and
//! either reports that nothing needs to be done or yields the transcoding
//! invocation; [`on_transcode_result`] judges the transcoder's output.

use vstd::prelude::*;

use crate::channels::{any_over_two, collect_counts, counts_of, has_invalid, needs_downmix};
use crate::command::{is_probe_plan, is_transcode_plan, probe_plan, transcode_plan, CommandPlan};
use crate::errors::{kind_of, ErrorKind, RunError};
use crate::metadata::{parse_probe_output, probe_fields_of};

verus! {

/// What the user asked for: the two paths and the two flags, fixed for the
/// whole run.
pub struct Request {
    pub input_path: String,
    pub output_path: String,
    /// Suppress informational output.
    pub quiet: bool,
    /// Allow overwriting an existing file at the output path.
    pub force: bool,
}

/// What the filesystem says about the two paths, checked by the caller
/// before the run starts.
#[derive(Clone, Copy, Debug, PartialEq, Eq, Structural)]
pub struct PathStatus {
    pub input_exists: bool,
    pub input_is_file: bool,
    pub output_exists: bool,
}

/// When a run may proceed: the input is an existing regular file, and the
/// output path is free unless overwriting was allowed.
pub open spec fn paths_valid(st: PathStatus, force: bool) -> bool {
    st.input_exists && st.input_is_file && (force || !st.output_exists)
}

/// Check the paths against the overwrite flag. Succeeds exactly when
/// [`paths_valid`] holds; each failure names the first check that failed,
/// input existence first, then input kind, then the output guard.
pub fn validate_paths(st: &PathStatus, force: bool) -> (r: Result<(), RunError>)
    ensures
        r is Ok <==> paths_valid(*st, force),
        !st.input_exists ==> (r matches Err(e) && e is InputMissing),
        st.input_exists && !st.input_is_file ==> (r matches Err(e) && e is InputNotFile),
        st.input_exists && st.input_is_file && !force && st.output_exists ==> (r matches Err(e)
            && e is OutputExists),
        r matches Err(e) ==> kind_of(e) == ErrorKind::PathValidation,
{
    if !st.input_exists {
        Err(RunError::InputMissing)
    } else if !st.input_is_file {
        Err(RunError::InputNotFile)
    } else if !force && st.output_exists {
        Err(RunError::OutputExists)
    } else {
        Ok(())
    }
}

/// Begin the run: validate the request, and yield the probing invocation.
/// Fails exactly when the paths do not pass [`validate_paths`], with the same
/// error — so no invocation is ever planned for an invalid request.
pub fn start(req: &Request, st: &PathStatus) -> (r: Result<CommandPlan, RunError>)
    ensures
        r is Ok <==> paths_valid(*st, req.force),
        r matches Ok(plan) ==> is_probe_plan(plan, req.input_path@),
        !st.input_exists ==> (r matches Err(e) && e is InputMissing),
        st.input_exists && !st.input_is_file ==> (r matches Err(e) && e is InputNotFile),
        st.input_exists && st.input_is_file && !req.force && st.output_exists ==> (r matches Err(e)
            && e is OutputExists),
        r matches Err(e) ==> kind_of(e) == ErrorKind::PathValidation,
{
    match validate_paths(st, req.force) {
        Ok(()) => Ok(probe_plan(req.input_path.as_str())),
        Err(e) => Err(e),
    }
}

/// How the run goes on after the probe: either no stream exceeds two
/// channels and nothing needs to be done, or some stream does and the
/// transcoding invocation is yielded. Both branches carry the counts that
/// were found, in stream order, for reporting.
#[derive(Debug)]
pub enum ProbeOutcome {
    NoDownmixNeeded { counts: Vec<i64> },
    Downmix { counts: Vec<i64>, plan: CommandPlan },
}

/// Judge the probing tool's captured output. Anything on its standard error
/// is fatal and carried back verbatim; otherwise what the standard output
/// yields — [`probe_fields_of`] the bytes — settles the rest: a missing or
/// malformed report fails, a non-integer channel count fails, and otherwise
/// the extracted counts are carried back and the transcoding invocation is
/// yielded exactly when some stream reports more than two channels.
pub fn on_probe_result(req: &Request, stdout: &Vec<u8>, stderr: Vec<u8>) -> (r: Result<
    ProbeOutcome,
    RunError,
>)
    ensures
        r is Ok <==> (stderr@.len() == 0 && (probe_fields_of(stdout@) matches Some(fields)
            && !has_invalid(fields))),
        stderr@.len() > 0 ==> (r matches Err(e) && e matches RunError::ProbeFailed(s) && s@
            == stderr@),
        stderr@.len() == 0 ==> !(r matches Err(RunError::ProbeFailed(_))),
        stderr@.len() == 0 && probe_fields_of(stdout@) is None ==> (r matches Err(e)
            && e is MalformedMetadata),
        stderr@.len() == 0 && (probe_fields_of(stdout@) matches Some(fields)
            && has_invalid(fields)) ==> (r matches Err(e) && e is InvalidChannelValue),
        r matches Ok(ProbeOutcome::NoDownmixNeeded { counts }) ==> (probe_fields_of(stdout@)
            matches Some(fields) && counts@ == counts_of(fields) && !any_over_two(
            counts_of(fields),
        )),
        r matches Ok(ProbeOutcome::Downmix { counts, plan }) ==> (probe_fields_of(stdout@)
            matches Some(fields) && counts@ == counts_of(fields) && any_over_two(
            counts_of(fields),
        ) && is_transcode_plan(plan, req.input_path@, req.output_path@)),
{
    if stderr.len() > 0 {
        return Err(RunError::ProbeFailed(stderr));
    }
    let fields = match parse_probe_output(stdout) {
        Ok(fields) => fields,
        Err(e) => {
            return Err(e);
        },
    };
    let counts = match collect_counts(&fields) {
        Ok(counts) => counts,
        Err(e) => {
            return Err(e);
        },
    };
    if needs_downmix(&counts) {
        let plan = transcode_plan(req.input_path.as_str(), req.output_path.as_str());
        Ok(ProbeOutcome::Downmix { counts, plan })
    } else {
        Ok(ProbeOutcome::NoDownmixNeeded { counts })
    }
}

/// Judge the transcoding tool's captured output: success exactly when its
/// standard error stayed empty, and anything on it is fatal and carried
/// back verbatim.
pub fn on_transcode_result(stderr: Vec<u8>) -> (r: Result<(), RunError>)
    ensures
        r is Ok <==> stderr@.len() == 0,
        stderr@.len() > 0 ==> (r matches Err(e) && e matches RunError::TranscodeFailed(s) && s@
            == stderr@),
{
    if stderr.len() > 0 {
        Err(RunError::TranscodeFailed(stderr))
    } else {
        Ok(())
    }
}

/// How loud a console line is.
#[derive(Clone, Copy, Debug, PartialEq, Eq, Structural)]
pub enum Severity {
    Info,
    Warning,
    Error,
}

/// Whether a line of the given severity is shown: quiet mode suppresses
/// informational lines and nothing else; warnings and errors always appear.
pub fn should_emit(quiet: bool, severity: Severity) -> (r: bool)
    ensures
        r == !(quiet && severity is Info),
{
    match severity {
        Severity::Info => !quiet,
        Severity::Warning => true,
        Severity::Error => true,
    }
}

} // verus!
