//! The order of the stages, as a state machine.
//!
//! A [`Pipeline`] says what to do next; the caller does it and reports the
//! outcome; the pipeline moves on. The first failure ends the run: no later
//! stage is asked for, and nothing is cleaned up.

use crate::artwork::{jpg_arguments, png_arguments, spec_jpg_arguments, spec_png_arguments};
use crate::layout::{plan, spec_plan, OutputLayout};
use crate::mux::{mux_arguments, spec_mux_arguments};
use crate::options::PodcastOptions;
use crate::status::PodcastStatus;
use crate::transcoder::spec_quiet_overwrite;
use vstd::prelude::*;

verus! {

/// Where a run stands: the stage whose action is due, or how the run ended.
#[derive(Clone, Copy, Debug, PartialEq, Eq, Structural)]
pub enum Stage {
    /// The output directories are to be created.
    Provision,
    /// The large PNG artwork is to be produced.
    ArtworkPng,
    /// The small JPEG artwork is to be produced.
    ArtworkJpg,
    /// The deliverable is to be produced.
    Mux,
    /// Nothing is left to do.
    Done(PodcastStatus),
}

/// What the caller is to do next.
#[derive(Clone, Debug)]
pub enum Action {
    /// Create this directory and every ancestor of it that is missing. A
    /// directory that exists already is no failure.
    CreateDirectories(String),
    /// Run the transcoder with these arguments and wait for it to end.
    RunTranscoder(Vec<String>),
    /// Stop, and report this status.
    Finish(PodcastStatus),
}

/// An action as plain text.
pub enum ActionView {
    CreateDirectories(Seq<char>),
    RunTranscoder(Seq<Seq<char>>),
    Finish(PodcastStatus),
}

impl View for Action {
    type V = ActionView;

    open spec fn view(&self) -> ActionView {
        match self {
            Action::CreateDirectories(path) => ActionView::CreateDirectories(path@),
            Action::RunTranscoder(arguments) => ActionView::RunTranscoder(arguments.deep_view()),
            Action::Finish(status) => ActionView::Finish(*status),
        }
    }
}

/// The stage that follows `stage` once its action has had `outcome`. A
/// failure ends the run wherever it happens, and a run that has ended stays
/// as it is.
pub open spec fn spec_next(stage: Stage, outcome: PodcastStatus) -> Stage {
    match stage {
        Stage::Done(status) => Stage::Done(status),
        _ => if outcome == PodcastStatus::Failure {
            Stage::Done(PodcastStatus::Failure)
        } else {
            match stage {
                Stage::Provision => Stage::ArtworkPng,
                Stage::ArtworkPng => Stage::ArtworkJpg,
                Stage::ArtworkJpg => Stage::Mux,
                _ => Stage::Done(PodcastStatus::Success),
            }
        },
    }
}

/// The action that is due at `stage` of a run for `options`.
pub open spec fn spec_action(stage: Stage, options: PodcastOptions) -> ActionView {
    let layout = spec_plan(options);
    match stage {
        Stage::Provision => ActionView::CreateDirectories(layout.apple_podcast_directory),
        Stage::ArtworkPng => ActionView::RunTranscoder(
            spec_png_arguments(options.artwork_file@, layout),
        ),
        Stage::ArtworkJpg => ActionView::RunTranscoder(
            spec_jpg_arguments(options.artwork_file@, layout),
        ),
        Stage::Mux => ActionView::RunTranscoder(spec_mux_arguments(options, layout)),
        Stage::Done(status) => ActionView::Finish(status),
    }
}

/// The stage that a run has reached once its first `count` actions have had
/// their outcomes, `outcomes[0]` being that of the first action.
pub open spec fn spec_stage_after(outcomes: Seq<PodcastStatus>, count: nat) -> Stage
    recommends
        count <= outcomes.len(),
    decreases count,
{
    if count == 0 {
        Stage::Provision
    } else {
        spec_next(spec_stage_after(outcomes, (count - 1) as nat), outcomes[count - 1])
    }
}

/// Whether the first `count` outcomes are all `Success`.
pub open spec fn spec_all_succeeded(outcomes: Seq<PodcastStatus>, count: nat) -> bool {
    forall|i: int| 0 <= i < count ==> outcomes[i] == PodcastStatus::Success
}

/// The stages come in one order. A run is at a stage only when exactly the
/// stages before it have been done, each with success: the directories
/// first, then the PNG artwork, then the JPEG artwork, then the deliverable.
pub proof fn lemma_stages_in_order(outcomes: Seq<PodcastStatus>, count: nat)
    requires
        count <= outcomes.len(),
    ensures
        spec_stage_after(outcomes, count) == Stage::Provision <==> count == 0,
        spec_stage_after(outcomes, count) == Stage::ArtworkPng <==> count == 1
            && spec_all_succeeded(outcomes, 1),
        spec_stage_after(outcomes, count) == Stage::ArtworkJpg <==> count == 2
            && spec_all_succeeded(outcomes, 2),
        spec_stage_after(outcomes, count) == Stage::Mux <==> count == 3 && spec_all_succeeded(
            outcomes,
            3,
        ),
        spec_stage_after(outcomes, count) == Stage::Done(PodcastStatus::Success) <==> count >= 4
            && spec_all_succeeded(outcomes, 4),
    decreases count,
{
    if count > 0 {
        lemma_stages_in_order(outcomes, (count - 1) as nat);
    }
}

/// The JPEG artwork is asked for only directly after the PNG artwork, and
/// only where producing the PNG artwork succeeded.
pub proof fn lemma_jpg_follows_png(outcomes: Seq<PodcastStatus>, count: nat)
    requires
        count <= outcomes.len(),
        spec_stage_after(outcomes, count) == Stage::ArtworkJpg,
    ensures
        count >= 1,
        spec_stage_after(outcomes, (count - 1) as nat) == Stage::ArtworkPng,
        outcomes[count - 1] == PodcastStatus::Success,
{
    lemma_stages_in_order(outcomes, count);
}

/// The first failure ends the run. Where an action was due and failed, the
/// run has ended with `Failure` from then on: whatever is reported later,
/// the only action ever asked for again is to stop with `Failure`, so no
/// later stage runs.
pub proof fn lemma_failure_ends_run(
    options: PodcastOptions,
    outcomes: Seq<PodcastStatus>,
    failed: nat,
    later: nat,
)
    requires
        failed < later <= outcomes.len(),
        !(spec_stage_after(outcomes, failed) is Done),
        outcomes[failed as int] == PodcastStatus::Failure,
    ensures
        spec_stage_after(outcomes, later) == Stage::Done(PodcastStatus::Failure),
        spec_action(spec_stage_after(outcomes, later), options) == ActionView::Finish(
            PodcastStatus::Failure,
        ),
    decreases later,
{
    if later > failed + 1 {
        lemma_failure_ends_run(options, outcomes, failed, (later - 1) as nat);
    }
}

/// Where the directories cannot be created, the transcoder is never run:
/// at no later point of the run is an invocation due.
pub proof fn lemma_failed_provision_runs_nothing(
    options: PodcastOptions,
    outcomes: Seq<PodcastStatus>,
    later: nat,
)
    requires
        1 <= later <= outcomes.len(),
        outcomes[0] == PodcastStatus::Failure,
    ensures
        !(spec_action(spec_stage_after(outcomes, later), options) is RunTranscoder),
        spec_stage_after(outcomes, later) == Stage::Done(PodcastStatus::Failure),
{
    lemma_failure_ends_run(options, outcomes, 0, later);
}

/// Four outcomes end a run, and it ends with `Success` exactly where all
/// four actions succeeded.
pub proof fn lemma_outcome_of_run(outcomes: Seq<PodcastStatus>)
    requires
        outcomes.len() >= 4,
    ensures
        spec_stage_after(outcomes, 4) is Done,
        spec_stage_after(outcomes, 4) == Stage::Done(PodcastStatus::Success)
            <==> spec_all_succeeded(outcomes, 4),
{
    lemma_stages_in_order(outcomes, 4);
}

/// Every invocation of the transcoder begins with the arguments that make
/// it overwrite an existing output file without asking and keep quiet, so
/// running a request again replaces what the first run wrote.
pub proof fn lemma_every_invocation_overwrites(stage: Stage, options: PodcastOptions)
    ensures
        spec_action(stage, options) matches ActionView::RunTranscoder(arguments) ==> {
            &&& arguments.len() > 5
            &&& arguments.subrange(0, 5) == spec_quiet_overwrite()
            &&& arguments[0] == "-y"@
        },
{
    match spec_action(stage, options) {
        ActionView::RunTranscoder(arguments) => {
            assert(arguments.subrange(0, 5) =~= spec_quiet_overwrite());
        },
        _ => {},
    }
}

/// One run of the preparation: the request, its layout, and the stage that
/// the run has reached.
pub struct Pipeline {
    options: PodcastOptions,
    layout: OutputLayout,
    stage: Stage,
}

/// A run as its request and its stage.
pub struct PipelineView {
    pub options: PodcastOptions,
    pub stage: Stage,
}

impl View for Pipeline {
    type V = PipelineView;

    closed spec fn view(&self) -> PipelineView {
        PipelineView { options: self.options, stage: self.stage }
    }
}

impl Pipeline {
    #[verifier::type_invariant]
    spec fn layout_is_planned(&self) -> bool {
        self.layout@ == spec_plan(self.options)
    }

    /// Starts a run for `options`, with the directories still to be created.
    pub fn new(options: PodcastOptions) -> (pipeline: Pipeline)
        ensures
            pipeline@.options == options,
            pipeline@.stage == Stage::Provision,
    {
        let layout = plan(&options);
        Pipeline { options, layout, stage: Stage::Provision }
    }

    /// The request of this run.
    pub fn options(&self) -> (options: &PodcastOptions)
        ensures
            *options == self@.options,
    {
        &self.options
    }

    /// The layout of this run's request.
    pub fn layout(&self) -> (layout: &OutputLayout)
        ensures
            layout@ == spec_plan(self@.options),
    {
        proof {
            use_type_invariant(self);
        }
        &self.layout
    }

    /// The stage that this run has reached.
    pub fn stage(&self) -> (stage: Stage)
        ensures
            stage == self@.stage,
    {
        self.stage
    }

    /// How the run ended, or `None` while an action is due.
    pub fn outcome(&self) -> (outcome: Option<PodcastStatus>)
        ensures
            outcome == (match self@.stage {
                Stage::Done(status) => Some(status),
                _ => None,
            }),
    {
        match self.stage {
            Stage::Done(status) => Some(status),
            _ => None,
        }
    }

    /// What the caller is to do next.
    pub fn action(&self) -> (action: Action)
        ensures
            action@ == spec_action(self@.stage, self@.options),
    {
        proof {
            use_type_invariant(self);
        }
        match self.stage {
            Stage::Provision => Action::CreateDirectories(
                self.layout.apple_podcast_directory.clone(),
            ),
            Stage::ArtworkPng => Action::RunTranscoder(
                png_arguments(self.options.artwork_file.as_str(), &self.layout),
            ),
            Stage::ArtworkJpg => Action::RunTranscoder(
                jpg_arguments(self.options.artwork_file.as_str(), &self.layout),
            ),
            Stage::Mux => Action::RunTranscoder(mux_arguments(&self.options, &self.layout)),
            Stage::Done(status) => Action::Finish(status),
        }
    }

    /// Takes note of how the action that was due went, and moves on.
    pub fn advance(&mut self, outcome: PodcastStatus)
        ensures
            final(self)@.options == old(self)@.options,
            final(self)@.stage == spec_next(old(self)@.stage, outcome),
    {
        proof {
            use_type_invariant(&*self);
        }
        let next = match self.stage {
            Stage::Done(status) => Stage::Done(status),
            stage => match outcome {
                PodcastStatus::Failure => Stage::Done(PodcastStatus::Failure),
                PodcastStatus::Success => match stage {
                    Stage::Provision => Stage::ArtworkPng,
                    Stage::ArtworkPng => Stage::ArtworkJpg,
                    Stage::ArtworkJpg => Stage::Mux,
                    _ => Stage::Done(PodcastStatus::Success),
                },
            },
        };
        self.stage = next;
    }
}

} // verus!
