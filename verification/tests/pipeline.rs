use podcast_master::artwork::{jpg_arguments, png_arguments};
use podcast_master::layout::plan;
use podcast_master::mux::mux_arguments;
use podcast_master::options::PodcastOptions;
use podcast_master::pipeline::{Action, Pipeline, Stage};
use podcast_master::process::{Attempt, ProcessResult};
use podcast_master::status::PodcastStatus;

fn episode() -> PodcastOptions {
    PodcastOptions {
        input_file: "/in/ep1.wav".to_string(),
        artwork_file: "/in/cover.webp".to_string(),
        episode: "ep1".to_string(),
        title: "The First One".to_string(),
        author: "Somebody".to_string(),
        podcast_name: "My Podcast".to_string(),
        genre: "Spoken Word".to_string(),
        description: "How it began".to_string(),
        guuid: "https://example.com/ep1".to_string(),
        episode_number: "1".to_string(),
        output_directory: "/out".to_string(),
    }
}

/// Runs a pipeline against scripted outcomes and records what it asked for.
fn rehearse(
    options: PodcastOptions,
    script: &[PodcastStatus],
) -> (Vec<String>, Vec<Vec<String>>, PodcastStatus) {
    let mut pipeline = Pipeline::new(options);
    let mut directories = Vec::new();
    let mut invocations = Vec::new();
    let mut step = 0;
    loop {
        match pipeline.action() {
            Action::CreateDirectories(path) => directories.push(path),
            Action::RunTranscoder(arguments) => invocations.push(arguments),
            Action::Finish(status) => return (directories, invocations, status),
        }
        pipeline.advance(script[step]);
        step += 1;
    }
}

const OK: PodcastStatus = PodcastStatus::Success;
const KO: PodcastStatus = PodcastStatus::Failure;

#[test]
fn all_stages_succeed() {
    let options = episode();
    let layout = plan(&options);
    let (directories, invocations, status) = rehearse(options.clone(), &[OK, OK, OK, OK]);
    assert_eq!(status, PodcastStatus::Success);
    assert_eq!(directories, vec!["/out/My Podcast-1/apple-podcast"]);
    assert_eq!(invocations.len(), 3);
    assert_eq!(invocations[0], png_arguments(&options.artwork_file, &layout));
    assert_eq!(invocations[1], jpg_arguments(&options.artwork_file, &layout));
    assert_eq!(invocations[2], mux_arguments(&options, &layout));
    assert_eq!(invocations[0][9], "/out/My Podcast-1/ep1.png");
    assert_eq!(invocations[1][9], "/out/My Podcast-1/ep1.jpg");
    assert_eq!(invocations[2][43], "/out/My Podcast-1/apple-podcast/ep1.mp4");
}

#[test]
fn failed_provision_runs_nothing() {
    let (directories, invocations, status) = rehearse(episode(), &[KO]);
    assert_eq!(status, PodcastStatus::Failure);
    assert_eq!(directories.len(), 1);
    assert_eq!(invocations.len(), 0);
}

#[test]
fn failed_png_skips_jpg_and_mux() {
    let options = episode();
    let layout = plan(&options);
    let (_, invocations, status) = rehearse(options.clone(), &[OK, KO]);
    assert_eq!(status, PodcastStatus::Failure);
    assert_eq!(invocations.len(), 1);
    assert_eq!(invocations[0], png_arguments(&options.artwork_file, &layout));
}

#[test]
fn missing_artwork_fails_before_mux() {
    let unreadable = Attempt::Completed(ProcessResult {
        stdout: String::new(),
        stderr: "/in/cover.webp: No such file or directory\n".to_string(),
        exit_code: Some(1),
    });
    let mut pipeline = Pipeline::new(episode());
    pipeline.advance(PodcastStatus::from_ok(true));
    assert!(matches!(pipeline.action(), Action::RunTranscoder(_)));
    pipeline.advance(unreadable.status());
    assert!(matches!(pipeline.action(), Action::Finish(PodcastStatus::Failure)));
    assert_eq!(pipeline.outcome(), Some(PodcastStatus::Failure));
}

#[test]
fn failed_jpg_skips_mux() {
    let options = episode();
    let layout = plan(&options);
    let (_, invocations, status) = rehearse(options.clone(), &[OK, OK, KO]);
    assert_eq!(status, PodcastStatus::Failure);
    assert_eq!(invocations.len(), 2);
    assert_eq!(invocations[1], jpg_arguments(&options.artwork_file, &layout));
}

#[test]
fn failed_mux_fails_the_run() {
    let (_, invocations, status) = rehearse(episode(), &[OK, OK, OK, KO]);
    assert_eq!(status, PodcastStatus::Failure);
    assert_eq!(invocations.len(), 3);
}

#[test]
fn png_is_invoked_before_jpg() {
    let (_, invocations, _) = rehearse(episode(), &[OK, OK, OK, OK]);
    assert_eq!(invocations[0][8], "scale=3000:3000");
    assert_eq!(invocations[1][8], "scale=1400:1400");
}

#[test]
fn second_run_asks_for_the_same_and_overwrites() {
    let first = rehearse(episode(), &[OK, OK, OK, OK]);
    let second = rehearse(episode(), &[OK, OK, OK, OK]);
    assert_eq!(first, second);
    for arguments in second.1.iter() {
        assert_eq!(arguments[0], "-y");
        assert_eq!(arguments[1], "-hide_banner");
        assert_eq!(arguments[2], "-nostats");
        assert_eq!(arguments[3], "-loglevel");
        assert_eq!(arguments[4], "error");
    }
}

#[test]
fn stages_advance_one_by_one() {
    let mut pipeline = Pipeline::new(episode());
    assert_eq!(pipeline.stage(), Stage::Provision);
    assert_eq!(pipeline.outcome(), None);
    pipeline.advance(OK);
    assert_eq!(pipeline.stage(), Stage::ArtworkPng);
    pipeline.advance(OK);
    assert_eq!(pipeline.stage(), Stage::ArtworkJpg);
    pipeline.advance(OK);
    assert_eq!(pipeline.stage(), Stage::Mux);
    assert_eq!(pipeline.outcome(), None);
    pipeline.advance(OK);
    assert_eq!(pipeline.stage(), Stage::Done(PodcastStatus::Success));
    assert_eq!(pipeline.outcome(), Some(PodcastStatus::Success));
}

#[test]
fn a_finished_run_stays_finished() {
    let mut pipeline = Pipeline::new(episode());
    pipeline.advance(KO);
    assert_eq!(pipeline.outcome(), Some(PodcastStatus::Failure));
    pipeline.advance(OK);
    assert_eq!(pipeline.stage(), Stage::Done(PodcastStatus::Failure));
    let mut pipeline = Pipeline::new(episode());
    for _ in 0..4 {
        pipeline.advance(OK);
    }
    pipeline.advance(KO);
    assert_eq!(pipeline.stage(), Stage::Done(PodcastStatus::Success));
    assert!(matches!(pipeline.action(), Action::Finish(PodcastStatus::Success)));
}

#[test]
fn pipeline_keeps_its_request_and_layout() {
    let options = episode();
    let mut pipeline = Pipeline::new(options.clone());
    pipeline.advance(OK);
    assert_eq!(pipeline.options().title, options.title);
    assert_eq!(pipeline.options().artwork_file, options.artwork_file);
    assert_eq!(pipeline.layout().audio_outfile, plan(&options).audio_outfile);
    assert_eq!(pipeline.layout().directory, "/out/My Podcast-1");
}
