use podcast_master::artwork::{jpg_arguments, png_arguments};
use podcast_master::layout::plan;
use podcast_master::mux::mux_arguments;
use podcast_master::options::PodcastOptions;
use podcast_master::transcoder::program;

fn sample() -> PodcastOptions {
    PodcastOptions {
        input_file: "/in/ep1.wav".to_string(),
        artwork_file: "/in/cover.webp".to_string(),
        episode: "ep1".to_string(),
        title: "The First One".to_string(),
        author: "Somebody".to_string(),
        podcast_name: "My Podcast".to_string(),
        genre: "Spoken Word".to_string(),
        description: "How it began".to_string(),
        guuid: "https://example.com/ep1".to_string(),
        episode_number: "1".to_string(),
        output_directory: "/out".to_string(),
    }
}

#[test]
fn transcoder_is_ffmpeg() {
    assert_eq!(program(), "ffmpeg");
}

#[test]
fn png_arguments_scale_to_3000() {
    let options = sample();
    let layout = plan(&options);
    assert_eq!(
        png_arguments(&options.artwork_file, &layout),
        vec![
            "-y",
            "-hide_banner",
            "-nostats",
            "-loglevel",
            "error",
            "-i",
            "/in/cover.webp",
            "-vf",
            "scale=3000:3000",
            "/out/My Podcast-1/ep1.png",
        ]
    );
}

#[test]
fn jpg_arguments_scale_to_1400() {
    let options = sample();
    let layout = plan(&options);
    assert_eq!(
        jpg_arguments(&options.artwork_file, &layout),
        vec![
            "-y",
            "-hide_banner",
            "-nostats",
            "-loglevel",
            "error",
            "-i",
            "/in/cover.webp",
            "-vf",
            "scale=1400:1400",
            "/out/My Podcast-1/ep1.jpg",
        ]
    );
}

#[test]
fn mux_arguments_are_exact() {
    let options = sample();
    let layout = plan(&options);
    assert_eq!(
        mux_arguments(&options, &layout),
        vec![
            "-y",
            "-hide_banner",
            "-nostats",
            "-loglevel",
            "error",
            "-i",
            "/in/ep1.wav",
            "-i",
            "/out/My Podcast-1/ep1.jpg",
            "-map",
            "0:a",
            "-map",
            "1:v",
            "-metadata",
            "title=The First One",
            "-metadata",
            "artist=Somebody",
            "-metadata",
            "album=My Podcast",
            "-metadata",
            "track=1",
            "-metadata",
            "genre=Spoken Word",
            "-metadata",
            "comment=How it began",
            "-metadata",
            "podcast_id=https://example.com/ep1",
            "-metadata:s:v",
            "title=Album cover",
            "-metadata:s:v",
            "comment=Cover (front)",
            "-c:a",
            "aac",
            "-b:a",
            "128k",
            "-ar",
            "44100",
            "-ac",
            "2",
            "-movflags",
            "+faststart",
            "-filter:a",
            "dynaudnorm, loudnorm=I=-16:LRA=11:TP=-1.5, alimiter=limit=0.79",
            "/out/My Podcast-1/apple-podcast/ep1.mp4",
        ]
    );
}

#[test]
fn mux_arguments_keep_the_groups_in_place() {
    let options = sample();
    let layout = plan(&options);
    let arguments = mux_arguments(&options, &layout);
    assert_eq!(arguments.len(), 44);
    let tags: Vec<&str> = arguments[13..27].iter().map(|a| a.as_str()).collect();
    assert_eq!(
        tags,
        vec![
            "-metadata",
            "title=The First One",
            "-metadata",
            "artist=Somebody",
            "-metadata",
            "album=My Podcast",
            "-metadata",
            "track=1",
            "-metadata",
            "genre=Spoken Word",
            "-metadata",
            "comment=How it began",
            "-metadata",
            "podcast_id=https://example.com/ep1",
        ]
    );
    assert_eq!(arguments[27], "-metadata:s:v");
    assert_eq!(arguments[28], "title=Album cover");
    assert_eq!(arguments[29], "-metadata:s:v");
    assert_eq!(arguments[30], "comment=Cover (front)");
    assert_eq!(arguments[41], "-filter:a");
    assert_eq!(
        arguments[42],
        "dynaudnorm, loudnorm=I=-16:LRA=11:TP=-1.5, alimiter=limit=0.79"
    );
    assert_eq!(arguments[43], layout.audio_outfile);
}

#[test]
fn mux_arguments_take_tags_letter_for_letter() {
    let mut options = sample();
    options.title = "a=b \"quoted\" -y".to_string();
    options.description = String::new();
    options.guuid = "\u{e9}t\u{e9} 2024".to_string();
    let layout = plan(&options);
    let arguments = mux_arguments(&options, &layout);
    assert_eq!(arguments[14], "title=a=b \"quoted\" -y");
    assert_eq!(arguments[24], "comment=");
    assert_eq!(arguments[26], "podcast_id=\u{e9}t\u{e9} 2024");
}

#[test]
fn mux_reads_the_small_artwork_not_the_source() {
    let options = sample();
    let layout = plan(&options);
    let arguments = mux_arguments(&options, &layout);
    assert_eq!(arguments[6], options.input_file);
    assert_eq!(arguments[8], layout.artwork_outfile_jpg);
    assert!(!arguments.contains(&options.artwork_file));
}

#[test]
fn cover_tags_carry_no_quote_characters() {
    let options = sample();
    let layout = plan(&options);
    let arguments = mux_arguments(&options, &layout);
    assert_eq!(arguments[26], "podcast_id=https://example.com/ep1");
    assert_eq!(
        arguments[27..31],
        ["-metadata:s:v", "title=Album cover", "-metadata:s:v", "comment=Cover (front)"]
    );
    assert_eq!(arguments[31], "-c:a");
    assert!(!arguments[28].contains('"'));
    assert!(!arguments[30].contains('"'));
}
