//! What a conversion ends in: success, or a failure that keeps the record of
//! everything that was tried.

use vstd::prelude::*;
use vstd::string::*;
use crate::adapter::{BackendResult, BackendResultView};
use crate::backend::Backend;
use crate::diagnostics::Category;

verus! {

/// The kinds of failure a conversion knows. `BackendUnavailable` and
/// `BackendExecutionFailed` are failures of one backend, `NativeDecodeFailed`
/// and `OutputWriteFailed` failures of the native decoder. Only
/// `NoBackendAvailable` and `OutputWriteFailed` end a conversion.
#[derive(Clone, Copy, Debug, PartialEq, Eq, Structural)]
pub enum ConversionError {
    /// A probe found the backend's program missing or unusable.
    BackendUnavailable,
    /// A backend's program ran and failed.
    BackendExecutionFailed(Category),
    /// The native decoder could not read the input.
    NativeDecodeFailed,
    /// The native decoder could not read the input, and no backend was
    /// both available and successful.
    NoBackendAvailable,
    /// The native decoder read the input, but the output could not be
    /// written.
    OutputWriteFailed,
}

/// How the native decoder fared.
#[derive(Clone, Debug, PartialEq, Eq)]
pub enum NativeResult {
    /// The input was decoded and the output written.
    Converted,
    /// The input could not be decoded. Every reason counts the same.
    DecodeFailed { detail: String },
    /// The input was decoded, but the output could not be written.
    WriteFailed { detail: String },
}

/// What a [`NativeResult`] says.
pub enum NativeResultView {
    Converted,
    DecodeFailed { detail: Seq<char> },
    WriteFailed { detail: Seq<char> },
}

impl View for NativeResult {
    type V = NativeResultView;

    open spec fn view(&self) -> NativeResultView {
        match self {
            NativeResult::Converted => NativeResultView::Converted,
            NativeResult::DecodeFailed { detail } => NativeResultView::DecodeFailed {
                detail: detail@,
            },
            NativeResult::WriteFailed { detail } => NativeResultView::WriteFailed {
                detail: detail@,
            },
        }
    }
}

impl DeepView for NativeResult {
    type V = NativeResultView;

    open spec fn deep_view(&self) -> NativeResultView {
        self@
    }
}

impl NativeResultView {
    /// The kind of failure the result stands for; `None` for a success.
    pub open spec fn error(self) -> Option<ConversionError> {
        match self {
            NativeResultView::Converted => None,
            NativeResultView::DecodeFailed { .. } => Some(ConversionError::NativeDecodeFailed),
            NativeResultView::WriteFailed { .. } => Some(ConversionError::OutputWriteFailed),
        }
    }

    /// What the decoder said of its failure; empty for a success.
    pub open spec fn diagnostic(self) -> Seq<char> {
        match self {
            NativeResultView::Converted => Seq::empty(),
            NativeResultView::DecodeFailed { detail } => detail,
            NativeResultView::WriteFailed { detail } => detail,
        }
    }
}

impl NativeResult {
    /// The kind of failure the result stands for: a failed decode or a
    /// failed write. `None` for a success.
    pub fn error(&self) -> (error: Option<ConversionError>)
        ensures
            error == self@.error(),
    {
        match self {
            NativeResult::Converted => None,
            NativeResult::DecodeFailed { .. } => Some(ConversionError::NativeDecodeFailed),
            NativeResult::WriteFailed { .. } => Some(ConversionError::OutputWriteFailed),
        }
    }

    /// What the decoder said of its failure, unchanged; empty for a
    /// success.
    pub fn diagnostic(&self) -> (text: &str)
        ensures
            text@ == self@.diagnostic(),
    {
        proof {
            reveal_strlit("");
            assert(""@ =~= Seq::<char>::empty());
        }
        match self {
            NativeResult::Converted => "",
            NativeResult::DecodeFailed { detail } => detail.as_str(),
            NativeResult::WriteFailed { detail } => detail.as_str(),
        }
    }
}

/// One backend's attempt and how it ended.
#[derive(Clone, Debug, PartialEq, Eq)]
pub struct Attempt {
    pub backend: Backend,
    pub result: BackendResult,
}

/// What an [`Attempt`] says.
pub struct AttemptView {
    pub backend: Backend,
    pub result: BackendResultView,
}

impl View for Attempt {
    type V = AttemptView;

    open spec fn view(&self) -> AttemptView {
        AttemptView { backend: self.backend, result: self.result@ }
    }
}

impl DeepView for Attempt {
    type V = AttemptView;

    open spec fn deep_view(&self) -> AttemptView {
        self@
    }
}

impl AttemptView {
    /// The kind of failure the attempt stands for; `None` for a success.
    pub open spec fn error(self) -> Option<ConversionError> {
        match self.result {
            BackendResultView::Success => None,
            BackendResultView::Failure { category, .. } => Some(
                ConversionError::BackendExecutionFailed(category),
            ),
        }
    }
}

impl Attempt {
    /// The kind of failure the attempt stands for: a failed execution with
    /// its category. `None` for a success.
    pub fn error(&self) -> (error: Option<ConversionError>)
        ensures
            error == self@.error(),
    {
        match &self.result {
            BackendResult::Success => None,
            BackendResult::Failure { category, .. } => Some(
                ConversionError::BackendExecutionFailed(*category),
            ),
        }
    }
}

/// The end of a conversion.
#[derive(Clone, Debug, PartialEq, Eq)]
pub enum ConversionOutcome {
    /// The output file was written at `output_path`.
    Success { output_path: String },
    /// No output was produced. `native_diagnostic` is what the native
    /// decoder said of its failure, `attempts` holds every backend that was
    /// tried, in the order of trial, and `terminal_message` says what to do.
    Failure {
        error: ConversionError,
        native_diagnostic: String,
        attempts: Vec<Attempt>,
        terminal_message: String,
    },
}

/// What a [`ConversionOutcome`] says.
pub enum ConversionOutcomeView {
    Success { output_path: Seq<char> },
    Failure {
        error: ConversionError,
        native_diagnostic: Seq<char>,
        attempts: Seq<AttemptView>,
        terminal_message: Seq<char>,
    },
}

impl View for ConversionOutcome {
    type V = ConversionOutcomeView;

    open spec fn view(&self) -> ConversionOutcomeView {
        match self {
            ConversionOutcome::Success { output_path } => ConversionOutcomeView::Success {
                output_path: output_path@,
            },
            ConversionOutcome::Failure {
                error,
                native_diagnostic,
                attempts,
                terminal_message,
            } => ConversionOutcomeView::Failure {
                error: *error,
                native_diagnostic: native_diagnostic@,
                attempts: attempts.deep_view(),
                terminal_message: terminal_message@,
            },
        }
    }
}

impl DeepView for ConversionOutcome {
    type V = ConversionOutcomeView;

    open spec fn deep_view(&self) -> ConversionOutcomeView {
        self@
    }
}

} // verus!
