//! Reading what a backend's program left behind: whether a probe found the
//! tool, and whether a conversion succeeded.

use vstd::prelude::*;
use crate::backend::Backend;
use crate::diagnostics::{category_of, classify, Category};
use crate::outcome::ConversionError;

verus! {

/// What became of a command that was handed to the operating system.
#[derive(Clone, Debug, PartialEq, Eq)]
pub enum ProcessOutput {
    /// The program could not be started.
    NotStarted { detail: String },
    /// The program ran and exited. `stderr` is what it wrote to its error
    /// stream.
    Exited { success: bool, stderr: Vec<u8> },
}

/// What a [`ProcessOutput`] says.
pub enum ProcessOutputView {
    NotStarted { detail: Seq<char> },
    Exited { success: bool, stderr: Seq<u8> },
}

impl View for ProcessOutput {
    type V = ProcessOutputView;

    open spec fn view(&self) -> ProcessOutputView {
        match self {
            ProcessOutput::NotStarted { detail } => ProcessOutputView::NotStarted {
                detail: detail@,
            },
            ProcessOutput::Exited { success, stderr } => ProcessOutputView::Exited {
                success: *success,
                stderr: stderr@,
            },
        }
    }
}

/// Whether a backend can be used, as one probe found it.
#[derive(Clone, Copy, Debug, PartialEq, Eq, Structural)]
pub struct BackendCapability {
    pub backend: Backend,
    pub available: bool,
}

impl BackendCapability {
    /// The kind of failure the finding stands for: none for a backend that
    /// is available.
    pub open spec fn error_kind(self) -> Option<ConversionError> {
        if self.available {
            None
        } else {
            Some(ConversionError::BackendUnavailable)
        }
    }

    /// The kind of failure the finding stands for: a backend that is not
    /// available is [`ConversionError::BackendUnavailable`].
    pub fn error(&self) -> (error: Option<ConversionError>)
        ensures
            error == self.error_kind(),
    {
        if self.available {
            None
        } else {
            Some(ConversionError::BackendUnavailable)
        }
    }
}

/// The result of one attempt of one backend.
#[derive(Clone, Debug, PartialEq, Eq)]
pub enum BackendResult {
    Success,
    /// The attempt failed. `started` tells a program that ran and failed
    /// from one that never ran. `raw_diagnostic` is the program's own error
    /// output, unchanged, or, for a program that never ran, what the
    /// operating system said of it.
    Failure { started: bool, raw_diagnostic: String, category: Category },
}

/// What a [`BackendResult`] says.
pub enum BackendResultView {
    Success,
    Failure { started: bool, raw_diagnostic: Seq<char>, category: Category },
}

impl View for BackendResult {
    type V = BackendResultView;

    open spec fn view(&self) -> BackendResultView {
        match self {
            BackendResult::Success => BackendResultView::Success,
            BackendResult::Failure {
                started,
                raw_diagnostic,
                category,
            } => BackendResultView::Failure {
                started: *started,
                raw_diagnostic: raw_diagnostic@,
                category: *category,
            },
        }
    }
}

impl DeepView for BackendResult {
    type V = BackendResultView;

    open spec fn deep_view(&self) -> BackendResultView {
        self@
    }
}

/// The text that `String::from_utf8_lossy` of std makes of `bytes`: the text
/// they encode in UTF-8, with U+FFFD in place of what is no valid UTF-8.
pub uninterp spec fn utf8_lossy(bytes: Seq<u8>) -> Seq<char>;

/// Calls `String::from_utf8_lossy` of std. Believed, not proved: the result
/// is the text named [`utf8_lossy`] of the bytes.
#[verifier::external_body]
fn lossy_text(bytes: &[u8]) -> (text: String)
    ensures
        text@ == utf8_lossy(bytes@),
{
    String::from_utf8_lossy(bytes).into_owned()
}

impl ProcessOutputView {
    /// The program ran and exited with status zero.
    pub open spec fn exited_ok(self) -> bool {
        self matches ProcessOutputView::Exited { success, .. } && success
    }

    /// The result of a conversion by `backend` that ended like this, given
    /// the text `raw` of its error stream. A program that exits with status
    /// zero succeeded. One that exits otherwise ran and failed, and its
    /// error output is kept and sorted. One that could not be started never
    /// ran: what the operating system said is kept, and the program counts
    /// as missing.
    pub open spec fn result_given(self, backend: Backend, raw: Seq<char>) -> BackendResultView {
        match self {
            ProcessOutputView::NotStarted { detail } => BackendResultView::Failure {
                started: false,
                raw_diagnostic: detail,
                category: Category::MissingExecutable,
            },
            ProcessOutputView::Exited { success, stderr } => {
                if success {
                    BackendResultView::Success
                } else {
                    BackendResultView::Failure {
                        started: true,
                        raw_diagnostic: raw,
                        category: category_of(raw, backend),
                    }
                }
            },
        }
    }

    /// The text of the error stream; empty where the program did not run.
    pub open spec fn error_text(self) -> Seq<char> {
        match self {
            ProcessOutputView::NotStarted { .. } => Seq::empty(),
            ProcessOutputView::Exited { stderr, .. } => utf8_lossy(stderr),
        }
    }

    /// The result of a conversion by `backend` that ended like this.
    pub open spec fn result(self, backend: Backend) -> BackendResultView {
        self.result_given(backend, self.error_text())
    }
}

/// Reads a probe: the backend is available if and only if its program ran
/// and exited with status zero. A program that is missing, cannot be
/// executed, or exits with another status is unavailable, whatever the reason.
pub fn probe_result(backend: Backend, output: &ProcessOutput) -> (capability: BackendCapability)
    ensures
        capability.backend == backend,
        capability.available == output@.exited_ok(),
{
    let available = match output {
        ProcessOutput::NotStarted { .. } => false,
        ProcessOutput::Exited { success, .. } => *success,
    };
    BackendCapability { backend, available }
}

/// The failure of `backend` that ran and whose error output reads `raw`:
/// the text is kept as it is and sorted into a category.
pub fn failure_from_text(backend: Backend, raw: String) -> (result: BackendResult)
    ensures
        result@ == (BackendResultView::Failure {
            started: true,
            raw_diagnostic: raw@,
            category: category_of(raw@, backend),
        }),
{
    let category = classify(raw.as_str(), backend);
    BackendResult::Failure { started: true, raw_diagnostic: raw, category }
}

/// Reads the end of a conversion command: success if the program exited with
/// status zero, else a failure that carries the program's error output. A
/// program that could not be started is a failure that never ran, with what
/// the operating system said of it.
pub fn attempt_result(backend: Backend, output: ProcessOutput) -> (result: BackendResult)
    ensures
        result@ == output@.result(backend),
{
    match output {
        ProcessOutput::NotStarted { detail } => BackendResult::Failure {
            started: false,
            raw_diagnostic: detail,
            category: Category::MissingExecutable,
        },
        ProcessOutput::Exited { success, stderr } => {
            if success {
                BackendResult::Success
            } else {
                failure_from_text(backend, lossy_text(stderr.as_slice()))
            }
        },
    }
}

} // verus!
