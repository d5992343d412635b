//! What the program says about itself and its surroundings before and after a
//! conversion.

use vstd::prelude::*;
use vstd::string::*;
use crate::backend::Backend;
use crate::outcome::{ConversionError, ConversionOutcome, ConversionOutcomeView};
use crate::paths::{input_extension, is_heic_extension, is_typical_extension, lowered_extension};

verus! {

/// The banner: the program's name in block letters.
pub const BANNER: &'static str =
    "\n\n\t \n\t ██╗  ██╗   ███████╗   ██╗    ██████╗   \n\t ██║  ██║   ██╔════╝   ██║   ██╔════╝   \n\t ███████║   █████╗     ██║   ██║        \n\t ██╔══██║   ██╔══╝     ██║   ██║        \n\t ██║  ██║   ███████╗   ██║   ╚██████╗   \n\t ╚═╝  ╚═╝   ╚══════╝   ╚═╝    ╚═════╝\n\t \n\t  ██████╗    ██████╗    ███╗   ██╗    ██╗   ██╗   ███████╗   ██████╗    ████████╗   \n\t ██╔════╝   ██╔═══██╗   ████╗  ██║    ██║   ██║   ██╔════╝   ██╔══██╗   ╚══██╔══╝   \n\t ██║        ██║   ██║   ██╔██╗ ██║    ██║   ██║   █████╗     ██████╔╝      ██║      \n\t ██║        ██║   ██║   ██║╚██╗██║    ╚██╗ ██╔╝   ██╔══╝     ██╔══██╗      ██║      \n\t ╚██████╗   ╚██████╔╝   ██║ ╚████║     ╚████╔╝    ███████╗   ██║  ██║      ██║      \n\t  ╚═════╝    ╚═════╝    ╚═╝  ╚═══╝      ╚═══╝     ╚══════╝   ╚═╝  ╚═╝      ╚═╝\n\t \n\n";

/// Opens the line that lists the tools at hand.
pub const TOOLS_AVAILABLE: &'static str = "✅ Conversion tools available: ";

/// Opens the warning of an unusual extension; the extension follows.
pub const UNUSUAL_EXTENSION: &'static str = "⚠️  Warning: File extension '";

/// Closes the warning of an unusual extension.
pub const UNUSUAL_EXTENSION_END: &'static str = "' is not typical for HEIC files.";

/// Stands before a terminal message that is quoted in a report.
pub const QUOTED_MESSAGE: &'static str = "Original error: ";

/// Stands before the output path in the report of a failed write.
pub const COULD_NOT_WRITE: &'static str = "Could not write to: ";

/// Stands before the terminal message in the report of any other failure.
pub const CONVERSION_ERROR: &'static str = "❌ Conversion Error: ";

/// The long help: usage, examples, options, notes, requirements, and other
/// ways to convert. Its lines are separated by line feeds.
pub const BIGHELP: &'static str =
    "HEIC to PNG/JPG Converter - Detailed Help\n=========================================\n\nThis tool converts HEIC (High Efficiency Image Container) files to PNG or JPG format.\n\nBASIC USAGE:\n  heic_convert -i input.heic                    # Convert to PNG (default)\n  heic_convert -i input.heic -f jpg             # Convert to JPG\n  heic_convert -i input.heic -o output.png      # Specify output file\n\nEXAMPLES:\n  # Convert a single HEIC file to PNG:\n  heic_convert -i photo.heic\n  # Output: photo.png\n\n  # Convert to JPG format:\n  heic_convert -i photo.heic -f jpg\n  # Output: photo.jpg\n\n  # Specify custom output filename:\n  heic_convert -i IMG_1234.heic -o my_photo.png\n  # Output: my_photo.png\n\n  # Convert with different output directory:\n  heic_convert -i /path/to/photo.heic -o /output/dir/converted.jpg -f jpg\n  # Output: /output/dir/converted.jpg\n\n  # Convert multiple files (use in shell script):\n  for file in *.heic; do heic_convert -i \"$file\" -f png; done\n  # Converts all HEIC files in current directory to PNG\n\nOPTIONS:\n  -i, --input <FILE>     Input HEIC file path\n  -o, --output <FILE>    Output file path (optional)\n  -f, --format <FORMAT>  Output format: png, jpg, jpeg [default: png]\n  --bighelp              Show this detailed help\n  -h, --help             Show basic help\n  -V, --version          Show version\n\nNOTES:\n  - If no output file is specified, the tool will generate one based on the input filename\n  - Supported output formats: PNG, JPG/JPEG\n  - The tool preserves image quality during conversion\n  - Requires libheif system library to be installed (brew install libheif)\n\nSYSTEM REQUIREMENTS:\n  - macOS: Install libheif via Homebrew: brew install libheif\n  - Linux: Install libheif via package manager: apt-get install libheif-dev\n  - Windows: Install libheif development libraries\n\nALTERNATIVE METHODS:\n  If this tool doesn't work, you can also use:\n  - ImageMagick: convert input.heic output.png\n  - FFmpeg: ffmpeg -i input.heic output.png\n  - Online converters: convertio.co, cloudconvert.com";

/// The long help with its examples.
pub fn bighelp() -> (text: String)
    ensures
        text@ == BIGHELP@,
{
    String::from_str(BIGHELP)
}

/// The banner that opens every run.
pub fn show_banner() -> (banner: String)
    ensures
        banner@ == BANNER@,
{
    String::from_str(BANNER)
}

/// The texts `items` with `separator` between each two of them.
pub open spec fn joined_text(items: Seq<Seq<char>>, separator: Seq<char>) -> Seq<char>
    decreases items.len(),
{
    if items.len() == 0 {
        Seq::empty()
    } else if items.len() == 1 {
        items[0]
    } else {
        joined_text(items.drop_last(), separator) + separator + items.last()
    }
}

/// Joins `items` with `separator` between each two of them.
pub fn join_text(items: &Vec<String>, separator: &str) -> (text: String)
    ensures
        text@ == joined_text(items.deep_view(), separator@),
{
    let ghost all = items.deep_view();
    let mut text = String::new();
    let mut k: usize = 0;
    assert(all.take(0) =~= Seq::<Seq<char>>::empty());
    while k < items.len()
        invariant
            k <= items.len(),
            all == items.deep_view(),
            text@ == joined_text(all.take(k as int), separator@),
        decreases items.len() - k,
    {
        proof {
            let before = all.take(k as int);
            let after = all.take(k + 1);
            assert(after.drop_last() =~= before);
            assert(after.last() == items[k as int]@);
            if k == 0 {
                assert(text@ + items[k as int]@ =~= items[k as int]@);
            }
        }
        if k > 0 {
            text.append(separator);
        }
        text.append(items[k].as_str());
        k += 1;
    }
    assert(all.take(k as int) =~= all);
    text
}

/// The names of the tools that were found, ImageMagick before FFmpeg.
pub open spec fn available_tools(imagemagick: bool, ffmpeg: bool) -> Seq<Seq<char>> {
    let first: Seq<Seq<char>> = if imagemagick {
        seq!["ImageMagick"@]
    } else {
        Seq::empty()
    };
    if ffmpeg {
        first.push("FFmpeg"@)
    } else {
        first
    }
}

/// What is said of the tools before a conversion. With no tool at hand it
/// is a warning that names both and how to install them. Else it is one
/// line that lists the tools that were found.
pub open spec fn requirements_lines(imagemagick: bool, ffmpeg: bool) -> Seq<Seq<char>> {
    if !imagemagick && !ffmpeg {
        seq![
            "⚠️  Warning: No HEIC conversion tools detected!"@,
            ""@,
            "The Rust image crate has limited HEIC support. For best results, install:"@,
            "  • ImageMagick: brew install imagemagick"@,
            "  • FFmpeg: brew install ffmpeg"@,
            ""@,
            "Attempting conversion anyway..."@,
            ""@,
        ]
    } else {
        seq![TOOLS_AVAILABLE@ + joined_text(available_tools(imagemagick, ffmpeg), ", "@)]
    }
}

/// Reports which conversion tools are at hand, given what the probes of
/// ImageMagick and FFmpeg found. The lines are meant to be shown before the
/// conversion starts; a conversion is tried in either case.
pub fn check_system_requirements(imagemagick_available: bool, ffmpeg_available: bool) -> (lines:
    Vec<String>)
    ensures
        lines.deep_view() == requirements_lines(imagemagick_available, ffmpeg_available),
{
    let mut lines: Vec<String> = Vec::new();
    if !imagemagick_available && !ffmpeg_available {
        lines.push(String::from_str("⚠️  Warning: No HEIC conversion tools detected!"));
        lines.push(String::from_str(""));
        lines.push(
            String::from_str(
                "The Rust image crate has limited HEIC support. For best results, install:",
            ),
        );
        lines.push(String::from_str("  • ImageMagick: brew install imagemagick"));
        lines.push(String::from_str("  • FFmpeg: brew install ffmpeg"));
        lines.push(String::from_str(""));
        lines.push(String::from_str("Attempting conversion anyway..."));
        lines.push(String::from_str(""));
    } else {
        let mut tools: Vec<String> = Vec::new();
        if imagemagick_available {
            tools.push(String::from_str("ImageMagick"));
        }
        if ffmpeg_available {
            tools.push(String::from_str("FFmpeg"));
        }
        assert(tools.deep_view() =~= available_tools(imagemagick_available, ffmpeg_available));
        let mut line = String::from_str(TOOLS_AVAILABLE);
        line.append(join_text(&tools, ", ").as_str());
        lines.push(line);
    }
    assert(lines.deep_view() =~= requirements_lines(imagemagick_available, ffmpeg_available));
    lines
}

/// The warning for an input whose extension, in lower case, is `lowered`:
/// none for `heic` and `heif`, and else four lines, the last of them empty,
/// that name the extension and say that the conversion is tried anyway.
pub open spec fn warning_lines(lowered: Seq<char>) -> Option<Seq<Seq<char>>> {
    if is_heic_extension(lowered) {
        None
    } else {
        Some(
            seq![
                UNUSUAL_EXTENSION@ + lowered + UNUSUAL_EXTENSION_END@,
                "    Expected: .heic or .heif"@,
                "    Attempting conversion anyway..."@,
                ""@,
            ],
        )
    }
}

/// Warns of an extension that is unusual for HEIC. `lowered` is the
/// extension in lower case.
pub fn warning_for_extension(lowered: &str) -> (warning: Option<Vec<String>>)
    ensures
        warning.deep_view() == warning_lines(lowered@),
{
    if is_typical_extension(lowered) {
        None
    } else {
        let mut first = String::from_str(UNUSUAL_EXTENSION);
        first.append(lowered);
        first.append(UNUSUAL_EXTENSION_END);
        let mut lines: Vec<String> = Vec::new();
        lines.push(first);
        lines.push(String::from_str("    Expected: .heic or .heif"));
        lines.push(String::from_str("    Attempting conversion anyway..."));
        lines.push(String::from_str(""));
        assert(lines.deep_view() =~= warning_lines(lowered@)->0);
        Some(lines)
    }
}

/// Warns of an input whose extension is unusual for HEIC. The conversion is
/// tried whatever the extension.
pub fn extension_warning(input_path: &str) -> (warning: Option<Vec<String>>)
    ensures
        warning.deep_view() == warning_lines(lowered_extension(input_path@)),
{
    let lowered = input_extension(input_path);
    warning_for_extension(lowered.as_str())
}

/// Says that the native decoder has read `input_path` and sets out to write
/// `output_path`.
pub fn native_notice(input_path: &str, output_path: &str) -> (text: String)
    ensures
        text@ == "Converting "@ + input_path@ + " to "@ + output_path@,
{
    let mut text = String::from_str("Converting ");
    text.append(input_path);
    text.append(" to ");
    text.append(output_path);
    text
}

/// Says that `backend` sets out to convert `input_path` to `output_path`.
pub fn conversion_notice(backend: Backend, input_path: &str, output_path: &str) -> (text: String)
    ensures
        text@ == "Using "@ + backend.name_text() + " to convert "@ + input_path@ + " to "@
            + output_path@,
{
    let mut text = String::from_str("Using ");
    text.append(backend.name());
    text.append(" to convert ");
    text.append(input_path);
    text.append(" to ");
    text.append(output_path);
    text
}

/// Says that the output was written at `output_path`.
pub fn success_notice(output_path: &str) -> (text: String)
    ensures
        text@ == "Successfully converted to "@ + output_path@,
{
    let mut text = String::from_str("Successfully converted to ");
    text.append(output_path);
    text
}

/// Says that the native decoder could not read the input, for the reason
/// `detail`, and that the tools are tried next: two lines.
pub fn native_failure_notice(detail: &str) -> (lines: Vec<String>)
    ensures
        lines.deep_view() == seq![
            "Rust image crate cannot handle this file, trying external tools..."@,
            "Image crate error: "@ + detail@,
        ],
{
    let mut lines: Vec<String> = Vec::new();
    lines.push(
        String::from_str("Rust image crate cannot handle this file, trying external tools..."),
    );
    let mut second = String::from_str("Image crate error: ");
    second.append(detail);
    lines.push(second);
    assert(lines.deep_view() =~= seq![
        "Rust image crate cannot handle this file, trying external tools..."@,
        "Image crate error: "@ + detail@,
    ]);
    lines
}

/// What is said at the end of a conversion. A success is one line. A
/// failure for want of a backend lists the quick ways out and quotes the
/// terminal message. A failure to write names the output path and what to
/// check. Any other failure quotes the message and lists what to try.
pub open spec fn outcome_lines(outcome: ConversionOutcomeView, output_path: Seq<char>) -> Seq<
    Seq<char>,
> {
    match outcome {
        ConversionOutcomeView::Success { .. } => seq!["✅ Conversion completed successfully!"@],
        ConversionOutcomeView::Failure { error, terminal_message, .. } => match error {
            ConversionError::NoBackendAvailable => seq![
                "❌ HEIC Conversion Failed - Missing Dependencies"@,
                ""@,
                "🔧 Quick Fix Options:"@,
                "   1. Install ImageMagick: brew install imagemagick"@,
                "   2. Install FFmpeg: brew install ffmpeg"@,
                "   3. Use online converter: https://convertio.co/heic-png/"@,
                ""@,
                "📱 macOS Users can also:"@,
                "   • Open HEIC in Preview → Export as PNG/JPEG"@,
                "   • Use Photos app → Export → JPEG"@,
                ""@,
                QUOTED_MESSAGE@ + terminal_message,
            ],
            ConversionError::OutputWriteFailed => seq![
                "❌ Failed to Save Output File"@,
                ""@,
                COULD_NOT_WRITE@ + output_path,
                "Please check:"@,
                "   • Disk space availability"@,
                "   • Write permissions"@,
                "   • Output directory exists"@,
            ],
            _ => seq![
                CONVERSION_ERROR@ + terminal_message,
                ""@,
                "💡 Try these solutions:"@,
                "   1. Check if input file is corrupted"@,
                "   2. Try a different output location"@,
                "   3. Install conversion tools: brew install imagemagick ffmpeg"@,
                "   4. Use --bighelp for more options"@,
            ],
        },
    }
}

/// Reports the end of a conversion whose output path was `output_path`.
pub fn outcome_report(outcome: &ConversionOutcome, output_path: &str) -> (lines: Vec<String>)
    ensures
        lines.deep_view() == outcome_lines(outcome@, output_path@),
{
    let mut lines: Vec<String> = Vec::new();
    match outcome {
        ConversionOutcome::Success { .. } => {
            lines.push(String::from_str("✅ Conversion completed successfully!"));
        },
        ConversionOutcome::Failure { error, terminal_message, .. } => match error {
            ConversionError::NoBackendAvailable => {
                lines.push(String::from_str("❌ HEIC Conversion Failed - Missing Dependencies"));
                lines.push(String::from_str(""));
                lines.push(String::from_str("🔧 Quick Fix Options:"));
                lines.push(String::from_str("   1. Install ImageMagick: brew install imagemagick"));
                lines.push(String::from_str("   2. Install FFmpeg: brew install ffmpeg"));
                lines.push(
                    String::from_str("   3. Use online converter: https://convertio.co/heic-png/"),
                );
                lines.push(String::from_str(""));
                lines.push(String::from_str("📱 macOS Users can also:"));
                lines.push(String::from_str("   • Open HEIC in Preview → Export as PNG/JPEG"));
                lines.push(String::from_str("   • Use Photos app → Export → JPEG"));
                lines.push(String::from_str(""));
                let mut quoted = String::from_str(QUOTED_MESSAGE);
                quoted.append(terminal_message.as_str());
                lines.push(quoted);
            },
            ConversionError::OutputWriteFailed => {
                lines.push(String::from_str("❌ Failed to Save Output File"));
                lines.push(String::from_str(""));
                let mut target = String::from_str(COULD_NOT_WRITE);
                target.append(output_path);
                lines.push(target);
                lines.push(String::from_str("Please check:"));
                lines.push(String::from_str("   • Disk space availability"));
                lines.push(String::from_str("   • Write permissions"));
                lines.push(String::from_str("   • Output directory exists"));
            },
            _ => {
                let mut quoted = String::from_str(CONVERSION_ERROR);
                quoted.append(terminal_message.as_str());
                lines.push(quoted);
                lines.push(String::from_str(""));
                lines.push(String::from_str("💡 Try these solutions:"));
                lines.push(String::from_str("   1. Check if input file is corrupted"));
                lines.push(String::from_str("   2. Try a different output location"));
                lines.push(
                    String::from_str(
                        "   3. Install conversion tools: brew install imagemagick ffmpeg",
                    ),
                );
                lines.push(String::from_str("   4. Use --bighelp for more options"));
            },
        },
    }
    assert(lines.deep_view() =~= outcome_lines(outcome@, output_path@));
    lines
}

} // verus!
