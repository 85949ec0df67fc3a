//! The external tool invocations a run may perform, as plain values.
//!
//! A plan holds the program name and the full argument list. The argument
//! lists are fixed: the probing call asks for stream metadata as JSON at an
//! error-only logging level, and the transcoding call copies the video
//! stream untouched, forces the audio down to two channels and always
//! overwrites the destination.

use vstd::prelude::*;

verus! {

/// One external tool invocation: the program to run and its arguments,
/// in order.
#[derive(Debug)]
pub struct CommandPlan {
    pub program: String,
    pub args: Vec<String>,
}

/// The probing invocation for the given input path: request stream metadata
/// as JSON, logging errors only.
pub open spec fn is_probe_plan(plan: CommandPlan, input: Seq<char>) -> bool {
    &&& plan.program@ == "ffprobe"@
    &&& plan.args@.len() == 6
    &&& plan.args@[0]@ == input
    &&& plan.args@[1]@ == "-show_streams"@
    &&& plan.args@[2]@ == "-loglevel"@
    &&& plan.args@[3]@ == "error"@
    &&& plan.args@[4]@ == "-print_format"@
    &&& plan.args@[5]@ == "json"@
}

/// The transcoding invocation from the given input path to the given output
/// path: copy video untouched, force the audio to exactly two channels,
/// always overwrite the destination.
pub open spec fn is_transcode_plan(plan: CommandPlan, input: Seq<char>, output: Seq<char>) -> bool {
    &&& plan.program@ == "ffmpeg"@
    &&& plan.args@.len() == 11
    &&& plan.args@[0]@ == "-i"@
    &&& plan.args@[1]@ == input
    &&& plan.args@[2]@ == "-hide_banner"@
    &&& plan.args@[3]@ == "-loglevel"@
    &&& plan.args@[4]@ == "error"@
    &&& plan.args@[5]@ == "-y"@
    &&& plan.args@[6]@ == "-c:v"@
    &&& plan.args@[7]@ == "copy"@
    &&& plan.args@[8]@ == "-ac"@
    &&& plan.args@[9]@ == "2"@
    &&& plan.args@[10]@ == output
}

/// Build the probing invocation for the given input path.
pub fn probe_plan(input: &str) -> (r: CommandPlan)
    ensures
        is_probe_plan(r, input@),
{
    let mut args: Vec<String> = Vec::new();
    args.push(String::from_str(input));
    args.push(String::from_str("-show_streams"));
    args.push(String::from_str("-loglevel"));
    args.push(String::from_str("error"));
    args.push(String::from_str("-print_format"));
    args.push(String::from_str("json"));
    CommandPlan { program: String::from_str("ffprobe"), args }
}

/// Build the transcoding invocation from the given input path to the given
/// output path.
pub fn transcode_plan(input: &str, output: &str) -> (r: CommandPlan)
    ensures
        is_transcode_plan(r, input@, output@),
{
    let mut args: Vec<String> = Vec::new();
    args.push(String::from_str("-i"));
    args.push(String::from_str(input));
    args.push(String::from_str("-hide_banner"));
    args.push(String::from_str("-loglevel"));
    args.push(String::from_str("error"));
    args.push(String::from_str("-y"));
    args.push(String::from_str("-c:v"));
    args.push(String::from_str("copy"));
    args.push(String::from_str("-ac"));
    args.push(String::from_str("2"));
    args.push(String::from_str(output));
    CommandPlan { program: String::from_str("ffmpeg"), args }
}

} // verus!
