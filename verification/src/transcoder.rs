//! What every invocation of the transcoder has in common.

use vstd::prelude::*;
use vstd::string::StringExecFns;

verus! {

/// The name under which the transcoder is looked up.
pub open spec fn spec_program() -> Seq<char> {
    "ffmpeg"@
}

/// The name under which the transcoder is looked up.
pub fn program() -> (name: &'static str)
    ensures
        name@ == spec_program(),
{
    "ffmpeg"
}

/// The arguments that every invocation begins with: overwrite an existing
/// output file without asking, print no banner and no statistics, and log
/// errors only.
pub open spec fn spec_quiet_overwrite() -> Seq<Seq<char>> {
    seq!["-y"@, "-hide_banner"@, "-nostats"@, "-loglevel"@, "error"@]
}

/// Starts an argument list.
pub(crate) fn quiet_overwrite() -> (arguments: Vec<String>)
    ensures
        arguments.deep_view() == spec_quiet_overwrite(),
{
    let mut arguments: Vec<String> = Vec::new();
    arguments.push(String::from_str("-y"));
    arguments.push(String::from_str("-hide_banner"));
    arguments.push(String::from_str("-nostats"));
    arguments.push(String::from_str("-loglevel"));
    arguments.push(String::from_str("error"));
    assert(arguments.deep_view() =~= spec_quiet_overwrite());
    arguments
}

} // verus!
