//! Conversion of HEIC/HEIF images to PNG or JPEG through a fixed chain of
//! backends: an in-process decoder first, then two command-line tools,
//! ImageMagick and FFmpeg.
//!
//! The crate holds the decisions of that chain and nothing that touches the
//! outside world. A caller makes a [`request::ConversionRequest`], starts an
//! [`orchestrator::Orchestrator`] on it, performs each
//! [`orchestrator::Action`] it is handed, and reports what happened as an
//! [`orchestrator::Event`], until the chain ends in a
//! [`outcome::ConversionOutcome`].
//!
//! - [`format`]: the output formats.
//! - [`paths`]: where the output goes when no path is given.
//! - [`request`]: the checks on the input, and the request itself.
//! - [`output`]: the checks on the directory of the output.
//! - [`backend`]: the backends and the command lines of the tools.
//! - [`adapter`]: reading the end of a probe or of a conversion command.
//! - [`diagnostics`]: sorting a tool's error output into categories.
//! - [`orchestrator`]: the chain, one step at a time.
//! - [`outcome`]: what a conversion ends in.
//! - [`messages`]: the wording of failures.
//! - [`report`]: what is said before and after a conversion.
//! - [`laws`]: what holds of every run of the chain.
//! - [`text`]: searching text for a fragment.

pub mod adapter;
pub mod backend;
pub mod diagnostics;
pub mod format;
pub mod laws;
pub mod messages;
pub mod orchestrator;
pub mod outcome;
pub mod output;
pub mod paths;
pub mod report;
pub mod request;
pub mod text;
