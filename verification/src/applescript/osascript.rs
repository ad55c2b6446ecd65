//! What running `osascript` gives back.
use vstd::prelude::*;
use crate::applescript::app::AppLaunchError;
use crate::text::{chars_of, concat2, trim, trim_chars};

verus! {

/// The result of one `osascript` run: whether it exited successfully, and
/// its standard output and standard error as text.
#[derive(Debug)]
pub struct ScriptOutput {
    pub success: bool,
    pub stdout: String,
    pub stderr: String,
}

/// A script run as plain values: the text printed on success, or the message
/// of the failure.  A run that could not start keeps its own message; one
/// that exited unsuccessfully is reported as `failure` followed by what it
/// printed on standard error.
pub open spec fn run_text(run: Result<ScriptOutput, AppLaunchError>, failure: Seq<char>) -> Result<Seq<char>, Seq<char>> {
    match run {
        Err(e) => Err(e.message@),
        Ok(o) => if !o.success {
            Err(failure + o.stderr@)
        } else {
            Ok(trim(o.stdout@))
        },
    }
}

/// The trimmed standard output of a successful run, or the failure message.
pub fn checked_output(run: &Result<ScriptOutput, AppLaunchError>, failure: &str) -> (r: Result<Vec<char>, String>)
    ensures
        match r {
            Ok(t) => run_text(*run, failure@) == Ok::<Seq<char>, Seq<char>>(t@),
            Err(m) => run_text(*run, failure@) == Err::<Seq<char>, Seq<char>>(m@),
        },
{
    match run {
        Err(e) => Err(e.message.clone()),
        Ok(o) => {
            if !o.success {
                Err(concat2(failure, o.stderr.as_str()))
            } else {
                let cs = chars_of(o.stdout.as_str());
                Ok(trim_chars(cs.as_slice()))
            }
        },
    }
}

} // verus!
