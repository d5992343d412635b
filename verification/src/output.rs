//! The checks on the place the output goes to: its directory must exist, or
//! be made, and must take new files.

use vstd::prelude::*;
use vstd::string::*;

verus! {

/// Opens the message where the output directory cannot be made; the
/// directory follows.
pub const CANNOT_CREATE: &'static str = "❌ Failed to create output directory: ";

/// The likely causes where the output directory cannot be made.
pub const CANNOT_CREATE_CAUSES: &'static str =
    "\nPossible causes:\n• No write permission to parent directory\n• Invalid characters in path\n• Disk full\n• Path too long";

/// Opens the message where the output directory takes no new files; the
/// directory follows.
pub const NOT_WRITABLE: &'static str = "❌ No write permission to output directory: ";

/// What to do where the output directory takes no new files.
pub const NOT_WRITABLE_ADVICE: &'static str =
    "\nPlease check directory permissions or choose a different output location.";

/// Opens the notice that the output directory is being made.
pub const CREATING_DIRECTORY: &'static str = "Creating output directory: ";

/// Opens the warning that the output file exists already.
pub const OVERWRITING: &'static str = "⚠️  Output file already exists and will be overwritten: ";

/// What the file system says of the directory the output goes to: whether
/// it exists, and whether it takes new files. `writable` is `None` where
/// that could not be found out.
#[derive(Clone, Copy, Debug, PartialEq, Eq, Structural)]
pub struct DirectoryFacts {
    pub exists: bool,
    pub writable: Option<bool>,
}

/// Why the output cannot be written where it is meant to go.
#[derive(Clone, Debug, PartialEq, Eq)]
pub enum OutputError {
    /// The directory does not exist and could not be made.
    CannotCreate { directory: String, detail: String },
    /// The directory exists, but it is read-only or cannot be examined.
    NotWritable { directory: String },
}

/// What an [`OutputError`] says.
pub enum OutputErrorView {
    CannotCreate { directory: Seq<char>, detail: Seq<char> },
    NotWritable { directory: Seq<char> },
}

impl View for OutputError {
    type V = OutputErrorView;

    open spec fn view(&self) -> OutputErrorView {
        match self {
            OutputError::CannotCreate { directory, detail } => OutputErrorView::CannotCreate {
                directory: directory@,
                detail: detail@,
            },
            OutputError::NotWritable { directory } => OutputErrorView::NotWritable {
                directory: directory@,
            },
        }
    }
}

impl OutputErrorView {
    /// The message for the user. The reason why a directory could not be
    /// made is kept beside the message, not in it.
    pub open spec fn message_text(self) -> Seq<char> {
        match self {
            OutputErrorView::CannotCreate { directory, .. } => CANNOT_CREATE@ + directory
                + CANNOT_CREATE_CAUSES@,
            OutputErrorView::NotWritable { directory } => NOT_WRITABLE@ + directory
                + NOT_WRITABLE_ADVICE@,
        }
    }
}

impl OutputError {
    /// The message for the user: what is wrong with the output directory
    /// and what may have caused it.
    pub fn message(&self) -> (text: String)
        ensures
            text@ == self@.message_text(),
    {
        match self {
            OutputError::CannotCreate { directory, .. } => {
                let mut text = String::from_str(CANNOT_CREATE);
                text.append(directory.as_str());
                text.append(CANNOT_CREATE_CAUSES);
                text
            },
            OutputError::NotWritable { directory } => {
                let mut text = String::from_str(NOT_WRITABLE);
                text.append(directory.as_str());
                text.append(NOT_WRITABLE_ADVICE);
                text
            },
        }
    }
}

impl DirectoryFacts {
    /// The directory takes the output: it does not exist, so that nothing
    /// can be said against it, or it is known to take new files.
    pub open spec fn accepts_output(self) -> bool {
        !self.exists || self.writable == Some(true)
    }
}

/// Whether the output directory has to be made first: it has where it does
/// not exist.
pub fn must_create(facts: &DirectoryFacts) -> (needed: bool)
    ensures
        needed == !facts.exists,
{
    !facts.exists
}

/// Checks that `directory` takes the output. A directory that exists is
/// turned away where it is read-only and where it cannot be examined.
pub fn check_directory(directory: &str, facts: &DirectoryFacts) -> (verdict: Result<
    (),
    OutputError,
>)
    ensures
        match verdict {
            Ok(_) => facts.accepts_output(),
            Err(error) => !facts.accepts_output() && error@ == (OutputErrorView::NotWritable {
                directory: directory@,
            }),
        },
{
    let writable = match facts.writable {
        Some(known) => known,
        None => false,
    };
    if facts.exists && !writable {
        Err(OutputError::NotWritable { directory: String::from_str(directory) })
    } else {
        Ok(())
    }
}

/// The notice that `directory` is being made.
pub fn creation_notice(directory: &str) -> (text: String)
    ensures
        text@ == CREATING_DIRECTORY@ + directory@,
{
    let mut text = String::from_str(CREATING_DIRECTORY);
    text.append(directory);
    text
}

/// The warning that the file at `output_path` exists and will be replaced.
pub fn overwrite_warning(output_path: &str) -> (text: String)
    ensures
        text@ == OVERWRITING@ + output_path@,
{
    let mut text = String::from_str(OVERWRITING);
    text.append(output_path);
    text
}

} // verus!
