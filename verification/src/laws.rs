//! What holds of every run of the fallback chain, whatever the backends do.
//!
//! A [`World`] fixes how each backend would answer if it were asked. The
//! chain is then run against it from start to end, and the laws speak of the
//! actions it hands out on the way and of the state it ends in.

use vstd::prelude::*;
use crate::adapter::{utf8_lossy, BackendResultView, ProcessOutputView};
use crate::backend::Backend;
use crate::diagnostics::Category;
use crate::messages::{
    lemma_terminal_text_loses_nothing, mentions, not_started_text, CAUSE_FOLLOWS,
    IMAGEMAGICK_NO_HEIC,
};
use crate::orchestrator::{ActionView, EventView, OrchestratorView, Phase};
use crate::outcome::{AttemptView, ConversionError, ConversionOutcomeView, NativeResultView};
use crate::request::ConversionRequestView;
use crate::text::occurs_in;

verus! {

/// How each backend answers when it is asked.
pub struct World {
    /// How the native decoder fares.
    pub native: NativeResultView,
    /// How the version query of ImageMagick ends.
    pub imagemagick_probe: ProcessOutputView,
    /// How the conversion by ImageMagick ends.
    pub imagemagick_run: ProcessOutputView,
    /// How the version query of FFmpeg ends.
    pub ffmpeg_probe: ProcessOutputView,
    /// How the conversion by FFmpeg ends.
    pub ffmpeg_run: ProcessOutputView,
}

impl World {
    /// The event with which the world answers the action pending in `phase`.
    pub open spec fn answer(self, phase: Phase) -> EventView {
        match phase {
            Phase::TryNative => EventView::Native(self.native),
            Phase::ProbeImageMagick => EventView::Process(self.imagemagick_probe),
            Phase::TryImageMagick => EventView::Process(self.imagemagick_run),
            Phase::ProbeFfmpeg => EventView::Process(self.ffmpeg_probe),
            Phase::TryFfmpeg => EventView::Process(self.ffmpeg_run),
            _ => EventView::Start,
        }
    }
}

/// The state in which the chain ends when it goes on from `state` and
/// `world` answers every action.
pub open spec fn final_state(state: OrchestratorView, world: World) -> OrchestratorView
    decreases state.phase.steps_left(),
{
    if state.phase.is_terminal() {
        state
    } else {
        final_state(state.after(world.answer(state.phase)), world)
    }
}

/// The actions the chain hands out when it goes on from `state` and `world`
/// answers every action, in the order in which they are handed out. The last
/// of them is [`ActionView::Finish`].
pub open spec fn actions(state: OrchestratorView, world: World) -> Seq<ActionView>
    decreases state.phase.steps_left(),
{
    if state.phase.is_terminal() {
        Seq::empty()
    } else {
        let next = state.after(world.answer(state.phase));
        match next.pending() {
            Some(action) => seq![action] + actions(next, world),
            None => actions(next, world),
        }
    }
}

/// The state in which the chain for `request` ends in `world`.
pub open spec fn end_of(request: ConversionRequestView, world: World) -> OrchestratorView {
    final_state(OrchestratorView::initial(request), world)
}

/// The actions the chain for `request` hands out in `world`.
pub open spec fn actions_of(request: ConversionRequestView, world: World) -> Seq<ActionView> {
    actions(OrchestratorView::initial(request), world)
}

/// How a run in `world` must end: in success where the native decoder
/// converts the input, else where ImageMagick is found and converts it, else
/// where FFmpeg is found and converts it; in a failed write where the native
/// decoder reads the input and cannot write the output; and otherwise for
/// want of a backend.
pub open spec fn verdict(world: World) -> Phase {
    match world.native {
        NativeResultView::Converted => Phase::Succeeded,
        NativeResultView::WriteFailed { .. } => Phase::Failed(ConversionError::OutputWriteFailed),
        NativeResultView::DecodeFailed { .. } => {
            if world.imagemagick_probe.exited_ok() && world.imagemagick_run.exited_ok() {
                Phase::Succeeded
            } else if world.ffmpeg_probe.exited_ok() && world.ffmpeg_run.exited_ok() {
                Phase::Succeeded
            } else {
                Phase::Failed(ConversionError::NoBackendAvailable)
            }
        },
    }
}

/// The chain ends as the world decides and in no other way: the phase in
/// which a run ends is the [`verdict`] of the world.
pub proof fn lemma_run_ends_in_verdict(request: ConversionRequestView, world: World)
    ensures
        end_of(request, world).phase == verdict(world),
        end_of(request, world).request == request,
{
    reveal_with_fuel(final_state, 7);
}

/// Every run ends, and it ends in exactly one outcome.
pub proof fn lemma_every_run_ends(state: OrchestratorView, world: World)
    ensures
        final_state(state, world).phase.is_terminal(),
        final_state(state, world).outcome() is Some,
        final_state(state, world).request == state.request,
    decreases state.phase.steps_left(),
{
    if !state.phase.is_terminal() {
        lemma_every_run_ends(state.after(world.answer(state.phase)), world);
    }
}

/// The native decoder is asked first, whatever tools are installed.
pub proof fn lemma_native_comes_first(request: ConversionRequestView, world: World)
    ensures
        actions_of(request, world).len() >= 2,
        actions_of(request, world)[0] is DecodeNative,
        actions_of(request, world).last() is Finish,
{
    reveal_with_fuel(actions, 7);
}

/// Where the native decoder can read the input, no tool is started: the
/// chain asks for the decode and then ends. It ends in success exactly if the
/// output could be written.
pub proof fn lemma_native_success_starts_no_tool(request: ConversionRequestView, world: World)
    requires
        !(world.native is DecodeFailed),
    ensures
        forall|i: int|
            0 <= i < actions_of(request, world).len() ==> (#[trigger] actions_of(
                request,
                world,
            )[i]).tool() is None,
        end_of(request, world).capabilities.len() == 0,
        end_of(request, world).attempts.len() == 0,
        world.native is Converted ==> end_of(request, world).outcome() == Some(
            ConversionOutcomeView::Success { output_path: request.output_path },
        ),
        world.native is WriteFailed ==> end_of(request, world).phase == Phase::Failed(
            ConversionError::OutputWriteFailed,
        ),
{
    reveal_with_fuel(actions, 7);
    reveal_with_fuel(final_state, 7);
}

/// Where the native decoder cannot read the input and neither backend is
/// available, the conversion fails for want of a backend, with no attempt
/// of a backend on record. No conversion command is handed out: no tool is
/// started that could write the output.
pub proof fn lemma_no_backend_available(request: ConversionRequestView, world: World)
    requires
        world.native is DecodeFailed,
        !world.imagemagick_probe.exited_ok(),
        !world.ffmpeg_probe.exited_ok(),
    ensures
        end_of(request, world).phase == Phase::Failed(ConversionError::NoBackendAvailable),
        end_of(request, world).outcome() matches Some(
            ConversionOutcomeView::Failure { error, native_diagnostic, attempts, .. },
        ) && error == ConversionError::NoBackendAvailable && native_diagnostic
            == world.native.diagnostic() && attempts.len() == 0,
        forall|i: int|
            0 <= i < actions_of(request, world).len() ==> !(#[trigger] actions_of(
                request,
                world,
            )[i] is Convert),
{
    reveal_with_fuel(actions, 7);
    reveal_with_fuel(final_state, 7);
}

/// Where the native decoder cannot read the input and ImageMagick is
/// available and succeeds, the conversion succeeds and FFmpeg is neither
/// looked for nor started.
pub proof fn lemma_first_success_wins(request: ConversionRequestView, world: World)
    requires
        world.native is DecodeFailed,
        world.imagemagick_probe.exited_ok(),
        world.imagemagick_run.exited_ok(),
    ensures
        end_of(request, world).outcome() == Some(
            ConversionOutcomeView::Success { output_path: request.output_path },
        ),
        forall|i: int|
            0 <= i < actions_of(request, world).len() ==> (#[trigger] actions_of(
                request,
                world,
            )[i]).tool() != Some(Backend::Ffmpeg),
{
    reveal_with_fuel(actions, 7);
    reveal_with_fuel(final_state, 7);
}

/// The backends are tried in one fixed order and each at most once, and
/// only after the native decoder has failed to read the input. Only the last
/// attempt can be a success. The run succeeds exactly if the native decoder
/// converted the input or the last attempt is a success.
pub proof fn lemma_attempts_in_fixed_order(request: ConversionRequestView, world: World)
    ensures
        end_of(request, world).native == Some(world.native),
        end_of(request, world).attempts.len() > 0 ==> world.native is DecodeFailed,
        forall|i: int, j: int|
            0 <= i < j < end_of(request, world).attempts.len() ==> (#[trigger] end_of(
                request,
                world,
            ).attempts[i]).backend.rank() < (#[trigger] end_of(
                request,
                world,
            ).attempts[j]).backend.rank(),
        forall|i: int|
            0 <= i < end_of(request, world).attempts.len() - 1 ==> (#[trigger] end_of(
                request,
                world,
            ).attempts[i]).result is Failure,
        end_of(request, world).phase is Succeeded <==> world.native is Converted || (end_of(
            request,
            world,
        ).attempts.len() > 0 && end_of(request, world).attempts.last().result is Success),
{
    reveal_with_fuel(final_state, 7);
}

/// No tool is started before it was looked for and found: every conversion
/// command follows directly on the probe of the same tool. The tools keep
/// their order: once FFmpeg has been asked, ImageMagick is not asked again.
/// And nothing is asked twice: no two of the actions start the same tool in
/// the same way.
pub proof fn lemma_tools_in_fixed_order(request: ConversionRequestView, world: World)
    ensures
        forall|i: int|
            0 <= i < actions_of(request, world).len() && (#[trigger] actions_of(
                request,
                world,
            )[i]) is Convert ==> i > 0 && actions_of(request, world)[i - 1] is Probe && actions_of(
                request,
                world,
            )[i - 1].tool() == actions_of(request, world)[i].tool(),
        forall|i: int, j: int|
            0 <= i < j < actions_of(request, world).len() && (#[trigger] actions_of(
                request,
                world,
            )[i]).tool() == Some(Backend::Ffmpeg) ==> (#[trigger] actions_of(
                request,
                world,
            )[j]).tool() != Some(Backend::ImageMagick),
        forall|i: int, j: int|
            0 <= i < j < actions_of(request, world).len() ==> (#[trigger] actions_of(
                request,
                world,
            )[i]) != (#[trigger] actions_of(request, world)[j]),
{
    reveal_with_fuel(actions, 7);
}

/// A step forgets nothing: the request stays as it is, and what is on
/// record of probes and attempts stays on record, in its place.
pub proof fn lemma_record_is_kept(state: OrchestratorView, event: EventView)
    ensures
        state.after(event).request == state.request,
        state.phase != Phase::TryNative ==> state.after(event).native == state.native,
        state.capabilities.is_prefix_of(state.after(event).capabilities),
        state.attempts.is_prefix_of(state.after(event).attempts),
        state.after(event).attempts.len() <= state.attempts.len() + 1,
{
    let next = state.after(event);
    assert(next.capabilities == state.capabilities || next.capabilities.drop_last()
        == state.capabilities);
    assert(next.attempts == state.attempts || next.attempts.drop_last() == state.attempts);
}

/// A failed conversion says why: its message holds what the native decoder
/// said and, for every attempt on record, the backend's name, the category
/// of the failure, the advice for it, and the backend's own diagnostic.
pub proof fn lemma_failure_reports_every_attempt(state: OrchestratorView, world: World)
    ensures
        final_state(state, world).outcome() matches Some(
            ConversionOutcomeView::Failure { native_diagnostic, attempts, terminal_message, .. },
        ) ==> attempts == final_state(state, world).attempts && occurs_in(
            native_diagnostic,
            terminal_message,
        ) && forall|i: int|
            0 <= i < attempts.len() ==> mentions(
                terminal_message,
                #[trigger] attempts[i],
                state.request.output_path,
            ),
{
    lemma_every_run_ends(state, world);
    let end = final_state(state, world);
    match end.phase {
        Phase::Failed(error) => {
            lemma_terminal_text_loses_nothing(
                error,
                end.native_diagnostic(),
                end.attempts,
                end.request.output_path,
            );
        },
        _ => {},
    }
}

/// Where ImageMagick fails for want of a decode delegate and FFmpeg does not
/// succeed either, the failure of ImageMagick is on record as a missing
/// codec, and the message tells how to install HEIC support for it.
pub proof fn lemma_missing_codec_is_reported(
    request: ConversionRequestView,
    world: World,
    stderr: Seq<u8>,
)
    requires
        world.native is DecodeFailed,
        world.imagemagick_probe.exited_ok(),
        world.imagemagick_run == (ProcessOutputView::Exited { success: false, stderr }),
        occurs_in("decode delegate"@, utf8_lossy(stderr)),
        !world.ffmpeg_probe.exited_ok() || !world.ffmpeg_run.exited_ok(),
    ensures
        end_of(request, world).outcome() matches Some(
            ConversionOutcomeView::Failure { error, attempts, terminal_message, .. },
        ) && error == ConversionError::NoBackendAvailable && attempts.len() >= 1 && attempts[0]
            == (AttemptView {
            backend: Backend::ImageMagick,
            result: BackendResultView::Failure {
                started: true,
                raw_diagnostic: utf8_lossy(stderr),
                category: Category::MissingCodec,
            },
        }) && occurs_in(IMAGEMAGICK_NO_HEIC@, terminal_message),
{
    reveal_with_fuel(final_state, 7);
    let start = OrchestratorView::initial(request);
    lemma_failure_reports_every_attempt(start, world);
    let end = end_of(request, world);
    assert(end.attempts[0].backend == Backend::ImageMagick);
}

/// Where ImageMagick was found but its conversion command cannot be
/// started, and FFmpeg does not succeed either, the attempt is on record as
/// one that never ran, and the message says that the command failed to
/// execute and how to install the tool, with what the operating system said
/// kept after it.
pub proof fn lemma_unstarted_imagemagick_is_reported(
    request: ConversionRequestView,
    world: World,
    detail: Seq<char>,
)
    requires
        world.native is DecodeFailed,
        world.imagemagick_probe.exited_ok(),
        world.imagemagick_run == (ProcessOutputView::NotStarted { detail }),
        !world.ffmpeg_probe.exited_ok() || !world.ffmpeg_run.exited_ok(),
    ensures
        end_of(request, world).outcome() matches Some(
            ConversionOutcomeView::Failure { error, attempts, terminal_message, .. },
        ) && error == ConversionError::NoBackendAvailable && attempts.len() >= 1 && attempts[0]
            == (AttemptView {
            backend: Backend::ImageMagick,
            result: BackendResultView::Failure {
                started: false,
                raw_diagnostic: detail,
                category: Category::MissingExecutable,
            },
        }) && occurs_in(
            not_started_text(Backend::ImageMagick) + CAUSE_FOLLOWS@ + detail,
            terminal_message,
        ),
{
    reveal_with_fuel(final_state, 7);
    lemma_failure_reports_every_attempt(OrchestratorView::initial(request), world);
    let end = end_of(request, world);
    assert(end.attempts[0].backend == Backend::ImageMagick);
}

/// Where FFmpeg was found but its conversion command cannot be started, the
/// conversion fails for want of a backend. The attempt is the last on
/// record, as one that never ran, and the message says that the command
/// failed to execute and how to install the tool, with what the operating
/// system said kept after it.
pub proof fn lemma_unstarted_ffmpeg_is_reported(
    request: ConversionRequestView,
    world: World,
    detail: Seq<char>,
)
    requires
        world.native is DecodeFailed,
        !world.imagemagick_probe.exited_ok() || !world.imagemagick_run.exited_ok(),
        world.ffmpeg_probe.exited_ok(),
        world.ffmpeg_run == (ProcessOutputView::NotStarted { detail }),
    ensures
        end_of(request, world).outcome() matches Some(
            ConversionOutcomeView::Failure { error, attempts, terminal_message, .. },
        ) && error == ConversionError::NoBackendAvailable && attempts.len() >= 1
            && attempts.last() == (AttemptView {
            backend: Backend::Ffmpeg,
            result: BackendResultView::Failure {
                started: false,
                raw_diagnostic: detail,
                category: Category::MissingExecutable,
            },
        }) && occurs_in(
            not_started_text(Backend::Ffmpeg) + CAUSE_FOLLOWS@ + detail,
            terminal_message,
        ),
{
    reveal_with_fuel(final_state, 7);
    lemma_failure_reports_every_attempt(OrchestratorView::initial(request), world);
    let end = end_of(request, world);
    let last = end.attempts.len() - 1;
    assert(end.attempts[last].backend == Backend::Ffmpeg);
}

} // verus!
