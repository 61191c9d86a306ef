//! Where the output files of an episode go.

use crate::options::PodcastOptions;
use crate::text::joined;
use vstd::prelude::*;
use vstd::string::StringExecFns;

verus! {

/// The paths that one preparation writes to. All of them lie under the
/// episode directory, which lies under the caller's output directory.
#[derive(Clone, Debug)]
pub struct OutputLayout {
    /// `{output_directory}/{podcast_name}-{episode_number}`
    pub directory: String,
    /// `{directory}/apple-podcast`
    pub apple_podcast_directory: String,
    /// `{directory}/{episode}.png`
    pub artwork_outfile_png: String,
    /// `{directory}/{episode}.jpg`
    pub artwork_outfile_jpg: String,
    /// `{apple_podcast_directory}/{episode}.mp4`
    pub audio_outfile: String,
}

/// The paths of a layout as plain text.
pub struct LayoutView {
    pub directory: Seq<char>,
    pub apple_podcast_directory: Seq<char>,
    pub artwork_outfile_png: Seq<char>,
    pub artwork_outfile_jpg: Seq<char>,
    pub audio_outfile: Seq<char>,
}

impl View for OutputLayout {
    type V = LayoutView;

    open spec fn view(&self) -> LayoutView {
        LayoutView {
            directory: self.directory@,
            apple_podcast_directory: self.apple_podcast_directory@,
            artwork_outfile_png: self.artwork_outfile_png@,
            artwork_outfile_jpg: self.artwork_outfile_jpg@,
            audio_outfile: self.audio_outfile@,
        }
    }
}

/// The episode directory for the given output directory, show and number.
pub open spec fn spec_directory(
    output_directory: Seq<char>,
    podcast_name: Seq<char>,
    episode_number: Seq<char>,
) -> Seq<char> {
    output_directory + "/"@ + podcast_name + "-"@ + episode_number
}

/// The layout for the four texts that it depends on.
pub open spec fn spec_layout(
    output_directory: Seq<char>,
    podcast_name: Seq<char>,
    episode_number: Seq<char>,
    episode: Seq<char>,
) -> LayoutView {
    let directory = spec_directory(output_directory, podcast_name, episode_number);
    let apple_podcast_directory = directory + "/apple-podcast"@;
    LayoutView {
        directory,
        apple_podcast_directory,
        artwork_outfile_png: directory + "/"@ + episode + ".png"@,
        artwork_outfile_jpg: directory + "/"@ + episode + ".jpg"@,
        audio_outfile: apple_podcast_directory + "/"@ + episode + ".mp4"@,
    }
}

/// The layout of a request.
pub open spec fn spec_plan(options: PodcastOptions) -> LayoutView {
    spec_layout(
        options.output_directory@,
        options.podcast_name@,
        options.episode_number@,
        options.episode@,
    )
}

/// `directory`, a slash, `stem` and `extension`, as a new string.
fn file_in(directory: &str, stem: &str, extension: &str) -> (path: String)
    ensures
        path@ == directory@ + "/"@ + stem@ + extension@,
{
    let mut path = joined(directory, "/");
    path.append(stem);
    path.append(extension);
    path
}

/// Computes where the output of a request goes. Nothing is read but the
/// request, so the same request always gives the same layout.
pub fn plan(options: &PodcastOptions) -> (layout: OutputLayout)
    ensures
        layout@ == spec_plan(*options),
{
    let mut directory = joined(options.output_directory.as_str(), "/");
    directory.append(options.podcast_name.as_str());
    directory.append("-");
    directory.append(options.episode_number.as_str());
    let apple_podcast_directory = joined(directory.as_str(), "/apple-podcast");
    let artwork_outfile_png = file_in(directory.as_str(), options.episode.as_str(), ".png");
    let artwork_outfile_jpg = file_in(directory.as_str(), options.episode.as_str(), ".jpg");
    let audio_outfile = file_in(
        apple_podcast_directory.as_str(),
        options.episode.as_str(),
        ".mp4",
    );
    OutputLayout {
        directory,
        apple_podcast_directory,
        artwork_outfile_png,
        artwork_outfile_jpg,
        audio_outfile,
    }
}

/// The layout depends on the output directory, the show's name, the episode
/// number and the episode's short name, and on nothing else: two requests
/// that agree on these four have the same layout, however they differ in
/// title, author, genre, description, identifier or source files.
pub proof fn lemma_plan_depends_on_identity_only(a: PodcastOptions, b: PodcastOptions)
    requires
        a.output_directory@ == b.output_directory@,
        a.podcast_name@ == b.podcast_name@,
        a.episode_number@ == b.episode_number@,
        a.episode@ == b.episode@,
    ensures
        spec_plan(a) == spec_plan(b),
{
}

} // verus!
