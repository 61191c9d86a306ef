//! The transcoder invocation that produces the deliverable: the audio,
//! re-encoded and normalised, with the cover and the tags embedded.

use crate::layout::{LayoutView, OutputLayout};
use crate::options::PodcastOptions;
use crate::text::joined;
use crate::transcoder::{quiet_overwrite, spec_quiet_overwrite};
use vstd::prelude::*;
use vstd::string::StringExecFns;

verus! {

/// The two inputs: the recorded audio first, the small artwork second.
pub open spec fn spec_inputs(input_file: Seq<char>, artwork_outfile_jpg: Seq<char>) -> Seq<
    Seq<char>,
> {
    seq!["-i"@, input_file, "-i"@, artwork_outfile_jpg]
}

/// The output holds the audio of the first input and the image of the
/// second, and nothing else.
pub open spec fn spec_stream_selection() -> Seq<Seq<char>> {
    seq!["-map"@, "0:a"@, "-map"@, "1:v"@]
}

/// The seven tags of the container, each taken from the request as it is.
pub open spec fn spec_tags(options: PodcastOptions) -> Seq<Seq<char>> {
    seq![
        "-metadata"@,
        "title="@ + options.title@,
        "-metadata"@,
        "artist="@ + options.author@,
        "-metadata"@,
        "album="@ + options.podcast_name@,
        "-metadata"@,
        "track="@ + options.episode_number@,
        "-metadata"@,
        "genre="@ + options.genre@,
        "-metadata"@,
        "comment="@ + options.description@,
        "-metadata"@,
        "podcast_id="@ + options.guuid@,
    ]
}

/// The two tags of the embedded image: its title and its comment. The
/// values are passed as they are to be stored, with nothing around them.
pub open spec fn spec_cover_tags() -> Seq<Seq<char>> {
    seq![
        "-metadata:s:v"@,
        "title=Album cover"@,
        "-metadata:s:v"@,
        "comment=Cover (front)"@,
    ]
}

/// AAC at 128 kbit/s, 44.1 kHz, two channels, laid out for streaming.
pub open spec fn spec_encoding() -> Seq<Seq<char>> {
    seq![
        "-c:a"@,
        "aac"@,
        "-b:a"@,
        "128k"@,
        "-ar"@,
        "44100"@,
        "-ac"@,
        "2"@,
        "-movflags"@,
        "+faststart"@,
    ]
}

/// One filter chain of three stages: dynamic normalisation, then loudness
/// normalisation to -16 LUFS with a range of 11 LU and a true peak of
/// -1.5 dBTP, then a limiter at 0.79.
pub open spec fn spec_loudness_filter() -> Seq<Seq<char>> {
    seq!["-filter:a"@, "dynaudnorm, loudnorm=I=-16:LRA=11:TP=-1.5, alimiter=limit=0.79"@]
}

/// The whole argument list, in the order in which the transcoder gets it.
/// The output path comes last.
pub open spec fn spec_mux_arguments(options: PodcastOptions, layout: LayoutView) -> Seq<
    Seq<char>,
> {
    spec_quiet_overwrite() + spec_inputs(options.input_file@, layout.artwork_outfile_jpg)
        + spec_stream_selection() + spec_tags(options) + spec_cover_tags() + spec_encoding()
        + spec_loudness_filter() + seq![layout.audio_outfile]
}

/// Where each group stands in the argument list. The seven tags of the
/// container come first, as key and value taken from the request letter for
/// letter; the two tags of the embedded image follow them directly; the
/// filter chain, one argument of three stages, comes after the encoding
/// settings; and the output path is the last argument.
pub proof fn lemma_mux_arguments_in_order(options: PodcastOptions, layout: LayoutView)
    ensures
        spec_mux_arguments(options, layout).len() == 44,
        spec_mux_arguments(options, layout).subrange(0, 5) == spec_quiet_overwrite(),
        spec_mux_arguments(options, layout).subrange(5, 9) == spec_inputs(
            options.input_file@,
            layout.artwork_outfile_jpg,
        ),
        spec_mux_arguments(options, layout).subrange(9, 13) == spec_stream_selection(),
        spec_mux_arguments(options, layout).subrange(13, 27) == spec_tags(options),
        spec_mux_arguments(options, layout).subrange(27, 31) == spec_cover_tags(),
        spec_mux_arguments(options, layout).subrange(31, 41) == spec_encoding(),
        spec_mux_arguments(options, layout).subrange(41, 43) == spec_loudness_filter(),
        spec_mux_arguments(options, layout)[43] == layout.audio_outfile,
{
    let arguments = spec_mux_arguments(options, layout);
    assert(arguments.subrange(0, 5) =~= spec_quiet_overwrite());
    assert(arguments.subrange(5, 9) =~= spec_inputs(
        options.input_file@,
        layout.artwork_outfile_jpg,
    ));
    assert(arguments.subrange(9, 13) =~= spec_stream_selection());
    assert(arguments.subrange(13, 27) =~= spec_tags(options));
    assert(arguments.subrange(27, 31) =~= spec_cover_tags());
    assert(arguments.subrange(31, 41) =~= spec_encoding());
    assert(arguments.subrange(41, 43) =~= spec_loudness_filter());
}

/// Builds the arguments of the invocation that writes the deliverable.
pub fn mux_arguments(options: &PodcastOptions, layout: &OutputLayout) -> (arguments: Vec<String>)
    ensures
        arguments.deep_view() == spec_mux_arguments(*options, layout@),
{
    let mut arguments = quiet_overwrite();
    arguments.push(String::from_str("-i"));
    arguments.push(options.input_file.clone());
    arguments.push(String::from_str("-i"));
    arguments.push(layout.artwork_outfile_jpg.clone());
    arguments.push(String::from_str("-map"));
    arguments.push(String::from_str("0:a"));
    arguments.push(String::from_str("-map"));
    arguments.push(String::from_str("1:v"));
    arguments.push(String::from_str("-metadata"));
    arguments.push(joined("title=", options.title.as_str()));
    arguments.push(String::from_str("-metadata"));
    arguments.push(joined("artist=", options.author.as_str()));
    arguments.push(String::from_str("-metadata"));
    arguments.push(joined("album=", options.podcast_name.as_str()));
    arguments.push(String::from_str("-metadata"));
    arguments.push(joined("track=", options.episode_number.as_str()));
    arguments.push(String::from_str("-metadata"));
    arguments.push(joined("genre=", options.genre.as_str()));
    arguments.push(String::from_str("-metadata"));
    arguments.push(joined("comment=", options.description.as_str()));
    arguments.push(String::from_str("-metadata"));
    arguments.push(joined("podcast_id=", options.guuid.as_str()));
    arguments.push(String::from_str("-metadata:s:v"));
    arguments.push(String::from_str("title=Album cover"));
    arguments.push(String::from_str("-metadata:s:v"));
    arguments.push(String::from_str("comment=Cover (front)"));
    arguments.push(String::from_str("-c:a"));
    arguments.push(String::from_str("aac"));
    arguments.push(String::from_str("-b:a"));
    arguments.push(String::from_str("128k"));
    arguments.push(String::from_str("-ar"));
    arguments.push(String::from_str("44100"));
    arguments.push(String::from_str("-ac"));
    arguments.push(String::from_str("2"));
    arguments.push(String::from_str("-movflags"));
    arguments.push(String::from_str("+faststart"));
    arguments.push(String::from_str("-filter:a"));
    arguments.push(
        String::from_str("dynaudnorm, loudnorm=I=-16:LRA=11:TP=-1.5, alimiter=limit=0.79"),
    );
    arguments.push(layout.audio_outfile.clone());
    assert(arguments.deep_view() =~= spec_mux_arguments(*options, layout@));
    arguments
}

} // verus!
