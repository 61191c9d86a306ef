//! What the caller asks for: one episode to prepare.

use vstd::prelude::*;
use vstd::string::StringExecFns;

verus! {

/// One episode to prepare. Every field is text supplied by the caller; the
/// paths are not checked here, and a missing file shows only when the
/// transcoder fails to open it.
#[derive(Clone, Debug)]
pub struct PodcastOptions {
    /// Path of the recorded audio.
    pub input_file: String,
    /// Path of the artwork image.
    pub artwork_file: String,
    /// Short name of the episode, used as the stem of every output file.
    pub episode: String,
    pub title: String,
    pub author: String,
    /// Name of the show.
    pub podcast_name: String,
    pub genre: String,
    pub description: String,
    /// Globally unique identifier of the episode.
    pub guuid: String,
    pub episode_number: String,
    /// Directory under which the episode directory is created.
    pub output_directory: String,
}

impl PodcastOptions {
    /// A sample episode, for trying the pipeline out.
    pub fn example() -> (options: PodcastOptions)
        ensures
            options.input_file@ == "/Users/admin/workspace/podcast-master/example/a.wav"@,
            options.artwork_file@
                == "/Users/admin/workspace/podcast-master/example/a-artwork.webp"@,
            options.episode@ == "my-episode"@,
            options.title@ == "my-title"@,
            options.author@ == "your-name"@,
            options.podcast_name@ == "my-podcast"@,
            options.genre@ == "Spoken Word"@,
            options.description@ == "my-description"@,
            options.guuid@ == "my-guuid"@,
            options.episode_number@ == "1"@,
            options.output_directory@ == "/Users/admin/workspace/podcast-master/output"@,
    {
        PodcastOptions {
            input_file: String::from_str("/Users/admin/workspace/podcast-master/example/a.wav"),
            artwork_file: String::from_str(
                "/Users/admin/workspace/podcast-master/example/a-artwork.webp",
            ),
            episode: String::from_str("my-episode"),
            title: String::from_str("my-title"),
            author: String::from_str("your-name"),
            podcast_name: String::from_str("my-podcast"),
            genre: String::from_str("Spoken Word"),
            description: String::from_str("my-description"),
            guuid: String::from_str("my-guuid"),
            episode_number: String::from_str("1"),
            output_directory: String::from_str("/Users/admin/workspace/podcast-master/output"),
        }
    }
}

} // verus!
