//! The two transcoder invocations that rescale the artwork.

use crate::layout::{LayoutView, OutputLayout};
use crate::transcoder::{quiet_overwrite, spec_quiet_overwrite};
use vstd::prelude::*;
use vstd::string::StringExecFns;

verus! {

/// The arguments that rescale the image at `source` by the filter `scale`
/// and write it to `target`.
pub open spec fn spec_scale_arguments(
    source: Seq<char>,
    scale: Seq<char>,
    target: Seq<char>,
) -> Seq<Seq<char>> {
    spec_quiet_overwrite() + seq!["-i"@, source, "-vf"@, scale, target]
}

/// The arguments that produce the large PNG artwork, 3000 by 3000, the
/// highest resolution that the distribution platform accepts.
pub open spec fn spec_png_arguments(artwork_file: Seq<char>, layout: LayoutView) -> Seq<Seq<char>> {
    spec_scale_arguments(artwork_file, "scale=3000:3000"@, layout.artwork_outfile_png)
}

/// The arguments that produce the small JPEG artwork, 1400 by 1400, the
/// lowest resolution that the distribution platform accepts. This file is
/// the cover that gets embedded in the audio file.
pub open spec fn spec_jpg_arguments(artwork_file: Seq<char>, layout: LayoutView) -> Seq<Seq<char>> {
    spec_scale_arguments(artwork_file, "scale=1400:1400"@, layout.artwork_outfile_jpg)
}

fn scale_arguments(source: &str, scale: &str, target: &str) -> (arguments: Vec<String>)
    ensures
        arguments.deep_view() == spec_scale_arguments(source@, scale@, target@),
{
    let mut arguments = quiet_overwrite();
    arguments.push(String::from_str("-i"));
    arguments.push(String::from_str(source));
    arguments.push(String::from_str("-vf"));
    arguments.push(String::from_str(scale));
    arguments.push(String::from_str(target));
    assert(arguments.deep_view() =~= spec_scale_arguments(source@, scale@, target@));
    arguments
}

/// Builds the arguments of the first artwork invocation.
pub fn png_arguments(artwork_file: &str, layout: &OutputLayout) -> (arguments: Vec<String>)
    ensures
        arguments.deep_view() == spec_png_arguments(artwork_file@, layout@),
{
    scale_arguments(artwork_file, "scale=3000:3000", layout.artwork_outfile_png.as_str())
}

/// Builds the arguments of the second artwork invocation.
pub fn jpg_arguments(artwork_file: &str, layout: &OutputLayout) -> (arguments: Vec<String>)
    ensures
        arguments.deep_view() == spec_jpg_arguments(artwork_file@, layout@),
{
    scale_arguments(artwork_file, "scale=1400:1400", layout.artwork_outfile_jpg.as_str())
}

} // verus!
