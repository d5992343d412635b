//! The fallback chain: the native decoder first, then the two backends,
//! ImageMagick and FFmpeg, one at a time, until one of them succeeds or all
//! are spent.
//!
//! The chain decides and does nothing itself. Each step hands the caller one
//! [`Action`] to perform, and the caller reports what came of it as an
//! [`Event`]. An event that does not answer the pending action changes
//! nothing, and the action is handed out again.

use vstd::prelude::*;
use vstd::string::*;
use crate::adapter::{
    attempt_result, probe_result, BackendCapability, BackendResult, BackendResultView,
    ProcessOutput, ProcessOutputView,
};
use crate::backend::{Backend, CommandLine, CommandLineView};
use crate::format::ImageKind;
use crate::messages::{terminal_message, terminal_text};
use crate::outcome::{
    Attempt, AttemptView, ConversionError, ConversionOutcome, ConversionOutcomeView, NativeResult,
    NativeResultView,
};
use crate::request::{ConversionRequest, ConversionRequestView};

verus! {

/// Where the chain stands.
#[derive(Clone, Copy, Debug, PartialEq, Eq, Structural)]
pub enum Phase {
    /// Nothing has been asked for yet.
    Init,
    /// The native decoder is at work.
    TryNative,
    /// ImageMagick is being looked for.
    ProbeImageMagick,
    /// ImageMagick is at work.
    TryImageMagick,
    /// FFmpeg is being looked for.
    ProbeFfmpeg,
    /// FFmpeg is at work.
    TryFfmpeg,
    /// The output has been written. The chain has ended.
    Succeeded,
    /// No output was written. The chain has ended.
    Failed(ConversionError),
}

impl Phase {
    /// The chain has ended.
    pub open spec fn is_terminal(self) -> bool {
        self is Succeeded || self is Failed
    }

    /// The number of steps the chain can still take from here, at most.
    pub open spec fn steps_left(self) -> nat {
        match self {
            Phase::Init => 6,
            Phase::TryNative => 5,
            Phase::ProbeImageMagick => 4,
            Phase::TryImageMagick => 3,
            Phase::ProbeFfmpeg => 2,
            Phase::TryFfmpeg => 1,
            Phase::Succeeded => 0,
            Phase::Failed(_) => 0,
        }
    }
}

/// What the caller reports to the chain.
#[derive(Clone, Debug, PartialEq, Eq)]
pub enum Event {
    /// The conversion is to begin.
    Start,
    /// The native decoder has ended.
    Native(NativeResult),
    /// The command of a probe or of a conversion has ended.
    Process(ProcessOutput),
}

/// What an [`Event`] says.
pub enum EventView {
    Start,
    Native(NativeResultView),
    Process(ProcessOutputView),
}

impl View for Event {
    type V = EventView;

    open spec fn view(&self) -> EventView {
        match self {
            Event::Start => EventView::Start,
            Event::Native(result) => EventView::Native(result@),
            Event::Process(output) => EventView::Process(output@),
        }
    }
}

/// What the chain asks the caller to do next.
#[derive(Clone, Debug, PartialEq, Eq)]
pub enum Action {
    /// Decode the input in-process and write it at the output path in the
    /// given encoding.
    DecodeNative { input_path: String, output_path: String, format: ImageKind },
    /// Run the version query of a tool to see whether it can be used.
    Probe { backend: Backend, command: CommandLine },
    /// Run a tool's conversion command.
    Convert { backend: Backend, command: CommandLine },
    /// Nothing: the chain has ended and the outcome can be taken.
    Finish,
}

/// What an [`Action`] says.
pub enum ActionView {
    DecodeNative { input_path: Seq<char>, output_path: Seq<char>, format: ImageKind },
    Probe { backend: Backend, command: CommandLineView },
    Convert { backend: Backend, command: CommandLineView },
    Finish,
}

impl View for Action {
    type V = ActionView;

    open spec fn view(&self) -> ActionView {
        match self {
            Action::DecodeNative { input_path, output_path, format } => ActionView::DecodeNative {
                input_path: input_path@,
                output_path: output_path@,
                format: *format,
            },
            Action::Probe { backend, command } => ActionView::Probe {
                backend: *backend,
                command: command@,
            },
            Action::Convert { backend, command } => ActionView::Convert {
                backend: *backend,
                command: command@,
            },
            Action::Finish => ActionView::Finish,
        }
    }
}

impl DeepView for Action {
    type V = ActionView;

    open spec fn deep_view(&self) -> ActionView {
        self@
    }
}

impl ActionView {
    /// The tool the action starts, if it starts one.
    pub open spec fn tool(self) -> Option<Backend> {
        match self {
            ActionView::Probe { backend, .. } => Some(backend),
            ActionView::Convert { backend, .. } => Some(backend),
            _ => None,
        }
    }
}

/// The action that probes `backend`.
pub open spec fn probe_action(backend: Backend) -> ActionView {
    ActionView::Probe { backend, command: backend.probe_line() }
}

/// The action that lets `backend` convert the input of `request`.
pub open spec fn convert_action(backend: Backend, request: ConversionRequestView) -> ActionView {
    ActionView::Convert {
        backend,
        command: backend.convert_line(request.input_path, request.output_path),
    }
}

/// The state of the chain, as the contracts see it.
pub struct OrchestratorView {
    pub request: ConversionRequestView,
    pub phase: Phase,
    /// How the native decoder fared, once it has ended.
    pub native: Option<NativeResultView>,
    /// What the probes found, in the order in which they were made.
    pub capabilities: Seq<BackendCapability>,
    /// Every attempt of a backend that has ended, in the order of trial.
    pub attempts: Seq<AttemptView>,
}

impl OrchestratorView {
    /// The state in which the chain for `request` begins.
    pub open spec fn initial(request: ConversionRequestView) -> OrchestratorView {
        OrchestratorView {
            request,
            phase: Phase::Init,
            native: None,
            capabilities: Seq::empty(),
            attempts: Seq::empty(),
        }
    }

    /// This state in another phase.
    pub open spec fn moved_to(self, phase: Phase) -> OrchestratorView {
        OrchestratorView { phase, ..self }
    }

    /// This state with one more attempt on record.
    pub open spec fn recorded(self, backend: Backend, result: BackendResultView) -> OrchestratorView {
        OrchestratorView { attempts: self.attempts.push(AttemptView { backend, result }), ..self }
    }

    /// What the native decoder said of its failure; empty where it has not
    /// failed.
    pub open spec fn native_diagnostic(self) -> Seq<char> {
        match self.native {
            Some(result) => result.diagnostic(),
            None => Seq::empty(),
        }
    }

    /// The state after the native decoder has ended: the result is kept.
    /// Success ends the chain. A failed decode leaves the turn to
    /// ImageMagick. A failed write ends the chain: the decoder could read
    /// the input, and no backend is asked.
    pub open spec fn after_native(self, result: NativeResultView) -> OrchestratorView {
        OrchestratorView {
            native: Some(result),
            phase: match result {
                NativeResultView::Converted => Phase::Succeeded,
                NativeResultView::DecodeFailed { .. } => Phase::ProbeImageMagick,
                NativeResultView::WriteFailed { .. } => Phase::Failed(
                    ConversionError::OutputWriteFailed,
                ),
            },
            ..self
        }
    }

    /// The state after the probe of `backend` has ended: the finding is
    /// kept, and the chain goes on to `found` where the tool is available
    /// and to `skipped` where it is not.
    pub open spec fn after_probe(
        self,
        backend: Backend,
        output: ProcessOutputView,
        found: Phase,
        skipped: Phase,
    ) -> OrchestratorView {
        OrchestratorView {
            capabilities: self.capabilities.push(
                BackendCapability { backend, available: output.exited_ok() },
            ),
            phase: if output.exited_ok() {
                found
            } else {
                skipped
            },
            ..self
        }
    }

    /// The state after the conversion command of `backend` has ended: the
    /// attempt is kept; success ends the chain, and failure leads on to
    /// `otherwise`.
    pub open spec fn after_attempt(
        self,
        backend: Backend,
        output: ProcessOutputView,
        otherwise: Phase,
    ) -> OrchestratorView {
        let result = output.result(backend);
        self.recorded(backend, result).moved_to(
            if result is Success {
                Phase::Succeeded
            } else {
                otherwise
            },
        )
    }

    /// The state after `event`. In `Init` every event starts the chain. In
    /// the other phases only the event that answers the pending action
    /// counts. Where the chain has ended nothing changes any more.
    pub open spec fn after(self, event: EventView) -> OrchestratorView {
        match self.phase {
            Phase::Init => self.moved_to(Phase::TryNative),
            Phase::TryNative => match event {
                EventView::Native(result) => self.after_native(result),
                _ => self,
            },
            Phase::ProbeImageMagick => match event {
                EventView::Process(output) => self.after_probe(
                    Backend::ImageMagick,
                    output,
                    Phase::TryImageMagick,
                    Phase::ProbeFfmpeg,
                ),
                _ => self,
            },
            Phase::TryImageMagick => match event {
                EventView::Process(output) => self.after_attempt(
                    Backend::ImageMagick,
                    output,
                    Phase::ProbeFfmpeg,
                ),
                _ => self,
            },
            Phase::ProbeFfmpeg => match event {
                EventView::Process(output) => self.after_probe(
                    Backend::Ffmpeg,
                    output,
                    Phase::TryFfmpeg,
                    Phase::Failed(ConversionError::NoBackendAvailable),
                ),
                _ => self,
            },
            Phase::TryFfmpeg => match event {
                EventView::Process(output) => self.after_attempt(
                    Backend::Ffmpeg,
                    output,
                    Phase::Failed(ConversionError::NoBackendAvailable),
                ),
                _ => self,
            },
            Phase::Succeeded => self,
            Phase::Failed(_) => self,
        }
    }

    /// The action the chain waits for in this state. In `Init` it waits for
    /// none.
    pub open spec fn pending(self) -> Option<ActionView> {
        match self.phase {
            Phase::Init => None,
            Phase::TryNative => Some(
                ActionView::DecodeNative {
                    input_path: self.request.input_path,
                    output_path: self.request.output_path,
                    format: self.request.target_format.image_kind(),
                },
            ),
            Phase::ProbeImageMagick => Some(probe_action(Backend::ImageMagick)),
            Phase::TryImageMagick => Some(convert_action(Backend::ImageMagick, self.request)),
            Phase::ProbeFfmpeg => Some(probe_action(Backend::Ffmpeg)),
            Phase::TryFfmpeg => Some(convert_action(Backend::Ffmpeg, self.request)),
            Phase::Succeeded => Some(ActionView::Finish),
            Phase::Failed(_) => Some(ActionView::Finish),
        }
    }

    /// The outcome, once the chain has ended. Success names the output
    /// path. Failure carries what the native decoder said, the record of the
    /// attempts, and the message made of both.
    pub open spec fn outcome(self) -> Option<ConversionOutcomeView> {
        match self.phase {
            Phase::Succeeded => Some(
                ConversionOutcomeView::Success { output_path: self.request.output_path },
            ),
            Phase::Failed(error) => Some(
                ConversionOutcomeView::Failure {
                    error,
                    native_diagnostic: self.native_diagnostic(),
                    attempts: self.attempts,
                    terminal_message: terminal_text(
                        error,
                        self.native_diagnostic(),
                        self.attempts,
                        self.request.output_path,
                    ),
                },
            ),
            _ => None,
        }
    }
}

/// The fallback chain for one request.
#[derive(Debug)]
pub struct Orchestrator {
    request: ConversionRequest,
    phase: Phase,
    native: Option<NativeResult>,
    capabilities: Vec<BackendCapability>,
    attempts: Vec<Attempt>,
}

impl View for Orchestrator {
    type V = OrchestratorView;

    closed spec fn view(&self) -> OrchestratorView {
        OrchestratorView {
            request: self.request@,
            phase: self.phase,
            native: self.native.deep_view(),
            capabilities: self.capabilities@,
            attempts: self.attempts.deep_view(),
        }
    }
}

fn make_probe(backend: Backend) -> (action: Action)
    ensures
        action@ == probe_action(backend),
{
    Action::Probe { backend, command: backend.probe_command() }
}

fn make_convert(backend: Backend, request: &ConversionRequest) -> (action: Action)
    ensures
        action@ == convert_action(backend, request@),
{
    Action::Convert {
        backend,
        command: backend.convert_command(request.input_path(), request.output_path()),
    }
}

impl Orchestrator {
    /// Sets up the chain for `request`. A request exists only for an input
    /// that holds at least one byte, so no chain runs on an empty input.
    pub fn new(request: ConversionRequest) -> (chain: Orchestrator)
        ensures
            chain@ == OrchestratorView::initial(request@),
            chain@.request.input_len > 0,
    {
        let input_len: u64 = request.input_len();
        let attempts: Vec<Attempt> = Vec::new();
        assert(attempts.deep_view() =~= Seq::<AttemptView>::empty());
        Orchestrator { request, phase: Phase::Init, native: None, capabilities: Vec::new(), attempts }
    }

    /// The request the chain works on.
    pub fn request(&self) -> (request: &ConversionRequest)
        ensures
            request@ == self@.request,
    {
        &self.request
    }

    /// Where the chain stands.
    pub fn phase(&self) -> (phase: Phase)
        ensures
            phase == self@.phase,
    {
        self.phase
    }

    /// How the native decoder fared, once it has ended.
    pub fn native(&self) -> (result: &Option<NativeResult>)
        ensures
            result.deep_view() == self@.native,
    {
        &self.native
    }

    /// What the probes found so far.
    pub fn capabilities(&self) -> (found: &Vec<BackendCapability>)
        ensures
            found@ == self@.capabilities,
    {
        &self.capabilities
    }

    /// The attempts that have ended so far, in the order of trial.
    pub fn attempts(&self) -> (made: &Vec<Attempt>)
        ensures
            made.deep_view() == self@.attempts,
    {
        &self.attempts
    }

    /// Whether the chain has ended.
    pub fn is_finished(&self) -> (ended: bool)
        ensures
            ended == self@.phase.is_terminal(),
    {
        match self.phase {
            Phase::Succeeded => true,
            Phase::Failed(_) => true,
            _ => false,
        }
    }

    fn record(self, backend: Backend, result: BackendResult, phase: Phase) -> (next: Orchestrator)
        ensures
            next@ == self@.recorded(backend, result@).moved_to(phase),
    {
        let ghost before = self.attempts.deep_view();
        let Orchestrator { request, phase: _, native, capabilities, mut attempts } = self;
        attempts.push(Attempt { backend, result });
        assert(attempts.deep_view() =~= before.push(AttemptView { backend, result: result@ }));
        Orchestrator { request, phase, native, capabilities, attempts }
    }

    fn note_probe(self, backend: Backend, output: &ProcessOutput, found: Phase, skipped: Phase) -> (next:
        Orchestrator)
        ensures
            next@ == self@.after_probe(backend, output@, found, skipped),
    {
        let capability = probe_result(backend, output);
        let Orchestrator { request, phase: _, native, mut capabilities, attempts } = self;
        capabilities.push(capability);
        let phase = if capability.available {
            found
        } else {
            skipped
        };
        Orchestrator { request, phase, native, capabilities, attempts }
    }

    fn note_attempt(self, backend: Backend, output: ProcessOutput, otherwise: Phase) -> (next:
        Orchestrator)
        ensures
            next@ == self@.after_attempt(backend, output@, otherwise),
    {
        let result = attempt_result(backend, output);
        let phase = match &result {
            BackendResult::Success => Phase::Succeeded,
            BackendResult::Failure { .. } => otherwise,
        };
        self.record(backend, result, phase)
    }

    fn note_native(self, result: NativeResult) -> (next: Orchestrator)
        ensures
            next@ == self@.after_native(result@),
    {
        let phase = match &result {
            NativeResult::Converted => Phase::Succeeded,
            NativeResult::DecodeFailed { .. } => Phase::ProbeImageMagick,
            NativeResult::WriteFailed { .. } => Phase::Failed(ConversionError::OutputWriteFailed),
        };
        let Orchestrator { request, phase: _, native: _, capabilities, attempts } = self;
        Orchestrator { request, phase, native: Some(result), capabilities, attempts }
    }

    /// Takes `event` in and moves the chain on.
    pub fn advance(self, event: Event) -> (next: Orchestrator)
        ensures
            next@ == self@.after(event@),
    {
        match self.phase {
            Phase::Init => {
                let Orchestrator { request, phase: _, native, capabilities, attempts } = self;
                Orchestrator { request, phase: Phase::TryNative, native, capabilities, attempts }
            },
            Phase::TryNative => match event {
                Event::Native(result) => self.note_native(result),
                _ => self,
            },
            Phase::ProbeImageMagick => match event {
                Event::Process(output) => self.note_probe(
                    Backend::ImageMagick,
                    &output,
                    Phase::TryImageMagick,
                    Phase::ProbeFfmpeg,
                ),
                _ => self,
            },
            Phase::TryImageMagick => match event {
                Event::Process(output) => self.note_attempt(
                    Backend::ImageMagick,
                    output,
                    Phase::ProbeFfmpeg,
                ),
                _ => self,
            },
            Phase::ProbeFfmpeg => match event {
                Event::Process(output) => self.note_probe(
                    Backend::Ffmpeg,
                    &output,
                    Phase::TryFfmpeg,
                    Phase::Failed(ConversionError::NoBackendAvailable),
                ),
                _ => self,
            },
            Phase::TryFfmpeg => match event {
                Event::Process(output) => self.note_attempt(
                    Backend::Ffmpeg,
                    output,
                    Phase::Failed(ConversionError::NoBackendAvailable),
                ),
                _ => self,
            },
            Phase::Succeeded => self,
            Phase::Failed(_) => self,
        }
    }

    /// The action the chain waits for: `None` before the start, and
    /// [`Action::Finish`] once the chain has ended.
    pub fn pending_action(&self) -> (action: Option<Action>)
        ensures
            action.deep_view() == self@.pending(),
    {
        match self.phase {
            Phase::Init => None,
            Phase::TryNative => Some(
                Action::DecodeNative {
                    input_path: String::from_str(self.request.input_path()),
                    output_path: String::from_str(self.request.output_path()),
                    format: self.request.target_format().to_image_format(),
                },
            ),
            Phase::ProbeImageMagick => Some(make_probe(Backend::ImageMagick)),
            Phase::TryImageMagick => Some(make_convert(Backend::ImageMagick, &self.request)),
            Phase::ProbeFfmpeg => Some(make_probe(Backend::Ffmpeg)),
            Phase::TryFfmpeg => Some(make_convert(Backend::Ffmpeg, &self.request)),
            Phase::Succeeded => Some(Action::Finish),
            Phase::Failed(_) => Some(Action::Finish),
        }
    }

    /// One step of the chain: takes `event` in, and hands out the new state
    /// with the action to perform next.
    pub fn step(self, event: Event) -> (next: (Orchestrator, Action))
        ensures
            next.0@ == self@.after(event@),
            next.0@.pending() == Some(next.1@),
    {
        let chain = self.advance(event);
        let action = chain.pending_action();
        (chain, action.unwrap())
    }

    /// The outcome of the conversion, once the chain has ended; `None`
    /// before.
    pub fn into_outcome(self) -> (outcome: Option<ConversionOutcome>)
        ensures
            outcome.deep_view() == self@.outcome(),
    {
        match self.phase {
            Phase::Succeeded => Some(
                ConversionOutcome::Success {
                    output_path: String::from_str(self.request.output_path()),
                },
            ),
            Phase::Failed(error) => {
                let native_diagnostic = match &self.native {
                    Some(result) => String::from_str(result.diagnostic()),
                    None => String::new(),
                };
                let terminal_message = terminal_message(
                    error,
                    native_diagnostic.as_str(),
                    &self.attempts,
                    self.request.output_path(),
                );
                Some(
                    ConversionOutcome::Failure {
                        error,
                        native_diagnostic,
                        attempts: self.attempts,
                        terminal_message,
                    },
                )
            },
            _ => None,
        }
    }
}

} // verus!
