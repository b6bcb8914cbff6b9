//! The external generation step, as the pipeline sees it.
//!
//! The pipeline never runs the transcoder itself: it hands out a request
//! naming the source file and the artifact target, and the process plumbing
//! around the library spawns the external process from it. The argument
//! template is fixed: the input path, a one-second seek into the source,
//! exactly one extracted frame, a fixed quality level, and the output path.

use vstd::prelude::*;
use vstd::string::StringExecFns;

verus! {

/// One request to run the external generator: produce the artifact at
/// `output` from the media file at `source`.
pub struct GenerateRequest {
    /// Resolved path of the source media file.
    pub source: String,
    /// Artifact location the generator must write.
    pub output: String,
}

/// The fixed argument template for one external invocation: input path,
/// one-second seek, single-frame extraction, fixed quality, output path.
pub fn command_args(req: &GenerateRequest) -> (args: Vec<String>)
    ensures
        args@.len() == 9,
        args@[0]@ == "-i"@,
        args@[1]@ == req.source@,
        args@[2]@ == "-ss"@,
        args@[3]@ == "00:00:01"@,
        args@[4]@ == "-frames:v"@,
        args@[5]@ == "1"@,
        args@[6]@ == "-q:v"@,
        args@[7]@ == "2"@,
        args@[8]@ == req.output@,
{
    let mut args: Vec<String> = Vec::new();
    args.push(String::from_str("-i"));
    args.push(String::from_str(req.source.as_str()));
    args.push(String::from_str("-ss"));
    args.push(String::from_str("00:00:01"));
    args.push(String::from_str("-frames:v"));
    args.push(String::from_str("1"));
    args.push(String::from_str("-q:v"));
    args.push(String::from_str("2"));
    args.push(String::from_str(req.output.as_str()));
    args
}

} // verus!
