//! The conversion backends: the two command-line tools that are tried where
//! the in-process decoder cannot read the input, and their command lines.

use vstd::prelude::*;
use vstd::string::*;

verus! {

/// A command-line tool that converts images. Both are looked up on the
/// search path.
#[derive(Clone, Copy, Debug, PartialEq, Eq, Structural)]
pub enum Backend {
    /// ImageMagick, a general-purpose image toolkit. Its program is
    /// `convert`.
    ImageMagick,
    /// FFmpeg, a media transcoder. Its program is `ffmpeg`.
    Ffmpeg,
}

/// A program and its arguments, as handed to the operating system.
#[derive(Clone, Debug, PartialEq, Eq)]
pub struct CommandLine {
    pub program: String,
    pub args: Vec<String>,
}

/// What a [`CommandLine`] says: the program's name and each argument, as
/// text.
pub struct CommandLineView {
    pub program: Seq<char>,
    pub args: Seq<Seq<char>>,
}

impl View for CommandLine {
    type V = CommandLineView;

    open spec fn view(&self) -> CommandLineView {
        CommandLineView { program: self.program@, args: self.args.deep_view() }
    }
}

impl DeepView for CommandLine {
    type V = CommandLineView;

    open spec fn deep_view(&self) -> CommandLineView {
        self@
    }
}

impl Backend {
    /// The name under which the backend appears in messages.
    pub open spec fn name_text(self) -> Seq<char> {
        match self {
            Backend::ImageMagick => "ImageMagick"@,
            Backend::Ffmpeg => "FFmpeg"@,
        }
    }

    /// The name of the backend's program.
    pub open spec fn program_text(self) -> Seq<char> {
        match self {
            Backend::ImageMagick => "convert"@,
            Backend::Ffmpeg => "ffmpeg"@,
        }
    }

    /// The place of the backend in the order of trial: ImageMagick before
    /// FFmpeg.
    pub open spec fn rank(self) -> nat {
        match self {
            Backend::ImageMagick => 0,
            Backend::Ffmpeg => 1,
        }
    }

    /// The command that asks the backend's program for its version.
    pub open spec fn probe_line(self) -> CommandLineView {
        CommandLineView { program: self.program_text(), args: seq!["-version"@] }
    }

    /// The command that converts `input` to `output`. ImageMagick takes the
    /// two paths as they are. FFmpeg takes the input after `-i` and the
    /// output after `-y`, which lets it overwrite without asking. Both
    /// choose the output format by the extension of `output`.
    pub open spec fn convert_line(self, input: Seq<char>, output: Seq<char>) -> CommandLineView {
        match self {
            Backend::ImageMagick => CommandLineView {
                program: self.program_text(),
                args: seq![input, output],
            },
            Backend::Ffmpeg => CommandLineView {
                program: self.program_text(),
                args: seq!["-i"@, input, "-y"@, output],
            },
        }
    }

    /// The backend's name for messages.
    pub fn name(&self) -> (name: &'static str)
        ensures
            name@ == self.name_text(),
    {
        match self {
            Backend::ImageMagick => "ImageMagick",
            Backend::Ffmpeg => "FFmpeg",
        }
    }

    /// The name of the backend's program: `convert` for ImageMagick,
    /// `ffmpeg` for FFmpeg.
    pub fn program(&self) -> (program: &'static str)
        ensures
            program@ == self.program_text(),
    {
        match self {
            Backend::ImageMagick => "convert",
            Backend::Ffmpeg => "ffmpeg",
        }
    }

    /// Builds the version query of the backend's program: `convert -version`
    /// or `ffmpeg -version`.
    pub fn probe_command(&self) -> (command: CommandLine)
        ensures
            command@ == self.probe_line(),
    {
        let mut args: Vec<String> = Vec::new();
        args.push(String::from_str("-version"));
        let command = CommandLine { program: String::from_str(self.program()), args };
        assert(command@.args =~= seq!["-version"@]);
        command
    }

    /// Builds the conversion command: `convert <input> <output>` for
    /// ImageMagick, `ffmpeg -i <input> -y <output>` for FFmpeg.
    pub fn convert_command(&self, input: &str, output: &str) -> (command: CommandLine)
        ensures
            command@ == self.convert_line(input@, output@),
    {
        let mut args: Vec<String> = Vec::new();
        match self {
            Backend::ImageMagick => {
                args.push(String::from_str(input));
                args.push(String::from_str(output));
            },
            Backend::Ffmpeg => {
                args.push(String::from_str("-i"));
                args.push(String::from_str(input));
                args.push(String::from_str("-y"));
                args.push(String::from_str(output));
            },
        }
        let command = CommandLine { program: String::from_str(self.program()), args };
        assert(command@.args =~= self.convert_line(input@, output@).args);
        command
    }
}

} // verus!
