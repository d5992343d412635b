//! A conversion request, and the checks on the input file that stand before
//! it. No request exists for an input that is missing, unreadable, no
//! regular file, or empty.

use vstd::prelude::*;
use vstd::string::*;
use crate::format::OutputFormat;
use crate::paths::{generate_output_path, generated_path};

verus! {

/// The message where no input path was given.
pub const INPUT_REQUIRED: &'static str =
    "❌ Input file is required!\n\nUsage: heic_convert -i <input.heic> [-o <output.png>] [-f <format>]\n\nExamples:\n• heic_convert -i photo.heic\n• heic_convert -i photo.heic -f jpg\n• heic_convert -i photo.heic -o converted.png\n\nUse --bighelp for detailed examples and options.";

/// Opens the message for an input that does not exist; the path follows.
pub const INPUT_MISSING: &'static str = "❌ Input file does not exist: ";

/// What to check where the input does not exist.
pub const INPUT_MISSING_ADVICE: &'static str =
    "\n\nPlease check:\n• File path is correct\n• File exists and is accessible\n• You have read permissions for the file";

/// Opens the message for an input that cannot be examined; the path follows.
pub const INPUT_INACCESSIBLE: &'static str = "❌ Cannot access input file: ";

/// Stands before the reason why the input cannot be examined.
pub const INPUT_INACCESSIBLE_DETAIL: &'static str = "\nError: ";

/// What to check where the input cannot be examined.
pub const INPUT_INACCESSIBLE_ADVICE: &'static str = "\nPlease check file permissions and path.";

/// Opens the message for an input that is no regular file; the path follows.
pub const INPUT_NOT_A_FILE: &'static str = "❌ Input path is not a file: ";

/// What to give in place of a directory.
pub const INPUT_NOT_A_FILE_ADVICE: &'static str =
    "\nPlease provide a path to a HEIC file, not a directory.";

/// Opens the message for an empty input; the path follows.
pub const INPUT_EMPTY: &'static str = "❌ Input file is empty: ";

/// What an empty input means.
pub const INPUT_EMPTY_ADVICE: &'static str = "\nThe HEIC file appears to be corrupted or empty.";

/// What the file system says of a path that could be examined.
#[derive(Clone, Copy, Debug, PartialEq, Eq, Structural)]
pub struct FileFacts {
    pub is_file: bool,
    pub len: u64,
}

/// What the file system says of the input path: whether anything is
/// there, and either what it is or why that could not be found out.
#[derive(Debug)]
pub struct InputFacts {
    pub exists: bool,
    pub metadata: Result<FileFacts, String>,
}

/// What [`InputFacts`] say.
pub struct InputFactsView {
    pub exists: bool,
    pub metadata: Result<FileFacts, Seq<char>>,
}

impl View for InputFacts {
    type V = InputFactsView;

    open spec fn view(&self) -> InputFactsView {
        InputFactsView {
            exists: self.exists,
            metadata: match self.metadata {
                Ok(facts) => Ok(facts),
                Err(detail) => Err(detail@),
            },
        }
    }
}

/// Why an input is turned away before any backend is tried.
#[derive(Clone, Debug, PartialEq, Eq)]
pub enum InputError {
    /// No input path was given.
    NotProvided,
    /// Nothing exists at the path.
    Missing { path: String },
    /// Something exists at the path, but it cannot be examined.
    Inaccessible { path: String, detail: String },
    /// The path leads to a directory or another thing that is no regular
    /// file.
    NotAFile { path: String },
    /// The file holds no bytes.
    Empty { path: String },
}

/// What an [`InputError`] says.
pub enum InputErrorView {
    NotProvided,
    Missing { path: Seq<char> },
    Inaccessible { path: Seq<char>, detail: Seq<char> },
    NotAFile { path: Seq<char> },
    Empty { path: Seq<char> },
}

impl View for InputError {
    type V = InputErrorView;

    open spec fn view(&self) -> InputErrorView {
        match self {
            InputError::NotProvided => InputErrorView::NotProvided,
            InputError::Missing { path } => InputErrorView::Missing { path: path@ },
            InputError::Inaccessible { path, detail } => InputErrorView::Inaccessible {
                path: path@,
                detail: detail@,
            },
            InputError::NotAFile { path } => InputErrorView::NotAFile { path: path@ },
            InputError::Empty { path } => InputErrorView::Empty { path: path@ },
        }
    }
}

impl InputErrorView {
    /// The message for the user.
    pub open spec fn message_text(self) -> Seq<char> {
        match self {
            InputErrorView::NotProvided => INPUT_REQUIRED@,
            InputErrorView::Missing { path } => INPUT_MISSING@ + path + INPUT_MISSING_ADVICE@,
            InputErrorView::Inaccessible { path, detail } => INPUT_INACCESSIBLE@ + path
                + INPUT_INACCESSIBLE_DETAIL@ + detail + INPUT_INACCESSIBLE_ADVICE@,
            InputErrorView::NotAFile { path } => INPUT_NOT_A_FILE@ + path
                + INPUT_NOT_A_FILE_ADVICE@,
            InputErrorView::Empty { path } => INPUT_EMPTY@ + path + INPUT_EMPTY_ADVICE@,
        }
    }
}

impl InputError {
    /// The message for the user: what is wrong with the input and what to
    /// check.
    pub fn message(&self) -> (text: String)
        ensures
            text@ == self@.message_text(),
    {
        match self {
            InputError::NotProvided => String::from_str(INPUT_REQUIRED),
            InputError::Missing { path } => {
                let mut text = String::from_str(INPUT_MISSING);
                text.append(path.as_str());
                text.append(INPUT_MISSING_ADVICE);
                text
            },
            InputError::Inaccessible { path, detail } => {
                let mut text = String::from_str(INPUT_INACCESSIBLE);
                text.append(path.as_str());
                text.append(INPUT_INACCESSIBLE_DETAIL);
                text.append(detail.as_str());
                text.append(INPUT_INACCESSIBLE_ADVICE);
                text
            },
            InputError::NotAFile { path } => {
                let mut text = String::from_str(INPUT_NOT_A_FILE);
                text.append(path.as_str());
                text.append(INPUT_NOT_A_FILE_ADVICE);
                text
            },
            InputError::Empty { path } => {
                let mut text = String::from_str(INPUT_EMPTY);
                text.append(path.as_str());
                text.append(INPUT_EMPTY_ADVICE);
                text
            },
        }
    }
}

/// The verdict on the input at `path`: its length in bytes where it is a
/// regular file that holds at least one byte, and else the first of these
/// that applies: nothing exists there; it cannot be examined; it is no
/// regular file; it is empty.
pub open spec fn input_verdict(path: Seq<char>, facts: InputFactsView) -> Result<
    u64,
    InputErrorView,
> {
    if !facts.exists {
        Err(InputErrorView::Missing { path })
    } else {
        match facts.metadata {
            Err(detail) => Err(InputErrorView::Inaccessible { path, detail }),
            Ok(file) => {
                if !file.is_file {
                    Err(InputErrorView::NotAFile { path })
                } else if file.len == 0 {
                    Err(InputErrorView::Empty { path })
                } else {
                    Ok(file.len)
                }
            },
        }
    }
}

/// The output path of a request: the one that was given, or else the one
/// generated from the input path and the format.
pub open spec fn resolved_output(
    input: Seq<char>,
    output: Option<Seq<char>>,
    format: OutputFormat,
) -> Seq<char> {
    match output {
        Some(path) => path,
        None => generated_path(input, format),
    }
}

/// Asks for the input path: a conversion needs one.
pub fn require_input(input_path: Option<String>) -> (path: Result<String, InputError>)
    ensures
        match input_path {
            Some(given) => path matches Ok(taken) && taken@ == given@,
            None => path matches Err(error) && error@ == InputErrorView::NotProvided,
        },
{
    match input_path {
        Some(given) => Ok(given),
        None => Err(InputError::NotProvided),
    }
}

/// Checks the input at `path` against what the file system says of it.
pub fn check_input(path: &str, facts: &InputFacts) -> (verdict: Result<u64, InputError>)
    ensures
        match verdict {
            Ok(len) => input_verdict(path@, facts@) == Ok::<u64, InputErrorView>(len),
            Err(error) => input_verdict(path@, facts@) == Err::<u64, InputErrorView>(error@),
        },
{
    if !facts.exists {
        return Err(InputError::Missing { path: String::from_str(path) });
    }
    match &facts.metadata {
        Err(detail) => Err(
            InputError::Inaccessible { path: String::from_str(path), detail: detail.clone() },
        ),
        Ok(file) => {
            if !file.is_file {
                Err(InputError::NotAFile { path: String::from_str(path) })
            } else if file.len == 0 {
                Err(InputError::Empty { path: String::from_str(path) })
            } else {
                Ok(file.len)
            }
        },
    }
}

/// A request to convert one file. It is made once and not changed after.
/// The input of a request is a regular file that held at least one byte
/// when the request was made.
#[derive(Debug)]
pub struct ConversionRequest {
    input_path: String,
    output_path: String,
    target_format: OutputFormat,
    input_len: u64,
}

/// What a [`ConversionRequest`] says.
pub struct ConversionRequestView {
    pub input_path: Seq<char>,
    pub output_path: Seq<char>,
    pub target_format: OutputFormat,
    pub input_len: u64,
}

impl View for ConversionRequest {
    type V = ConversionRequestView;

    closed spec fn view(&self) -> ConversionRequestView {
        ConversionRequestView {
            input_path: self.input_path@,
            output_path: self.output_path@,
            target_format: self.target_format,
            input_len: self.input_len,
        }
    }
}

impl ConversionRequest {
    #[verifier::type_invariant]
    spec fn holds_input(self) -> bool {
        self.input_len > 0
    }

    /// Makes the request for `input_path`, if the input passes the checks.
    /// Where no `output_path` is given, the output goes beside the input,
    /// under the input's stem and the extension of `target_format`.
    pub fn new(
        input_path: String,
        facts: &InputFacts,
        output_path: Option<String>,
        target_format: OutputFormat,
    ) -> (request: Result<ConversionRequest, InputError>)
        ensures
            match request {
                Ok(made) => {
                    &&& input_verdict(input_path@, facts@) == Ok::<u64, InputErrorView>(
                        made@.input_len,
                    )
                    &&& made@.input_path == input_path@
                    &&& made@.output_path == resolved_output(
                        input_path@,
                        output_path.deep_view(),
                        target_format,
                    )
                    &&& made@.target_format == target_format
                },
                Err(error) => input_verdict(input_path@, facts@) == Err::<u64, InputErrorView>(
                    error@,
                ),
            },
    {
        match check_input(input_path.as_str(), facts) {
            Err(error) => Err(error),
            Ok(input_len) => {
                let output_path = match output_path {
                    Some(path) => path,
                    None => generate_output_path(input_path.as_str(), &target_format),
                };
                Ok(ConversionRequest { input_path, output_path, target_format, input_len })
            },
        }
    }

    /// The path of the file to convert.
    pub fn input_path(&self) -> (path: &str)
        ensures
            path@ == self@.input_path,
    {
        self.input_path.as_str()
    }

    /// The path at which the output is written.
    pub fn output_path(&self) -> (path: &str)
        ensures
            path@ == self@.output_path,
    {
        self.output_path.as_str()
    }

    /// The format of the output.
    pub fn target_format(&self) -> (format: OutputFormat)
        ensures
            format == self@.target_format,
    {
        self.target_format
    }

    /// The length of the input in bytes when the request was made. It is
    /// never zero.
    pub fn input_len(&self) -> (len: u64)
        ensures
            len == self@.input_len,
            len > 0,
    {
        proof {
            use_type_invariant(self);
        }
        self.input_len
    }
}

} // verus!
