use heic_convert::adapter::BackendResult;
use heic_convert::backend::Backend;
use heic_convert::diagnostics::Category;
use heic_convert::outcome::{Attempt, ConversionError, ConversionOutcome};
use heic_convert::report::{
    bighelp, check_system_requirements, conversion_notice, extension_warning, join_text,
    native_failure_notice, native_notice, outcome_report, show_banner, success_notice,
    warning_for_extension,
};

fn texts(items: &[&str]) -> Vec<String> {
    items.iter().map(|item| item.to_string()).collect()
}

#[test]
fn no_tool_at_hand() {
    assert_eq!(
        check_system_requirements(false, false),
        texts(&[
            "⚠️  Warning: No HEIC conversion tools detected!",
            "",
            "The Rust image crate has limited HEIC support. For best results, install:",
            "  • ImageMagick: brew install imagemagick",
            "  • FFmpeg: brew install ffmpeg",
            "",
            "Attempting conversion anyway...",
            "",
        ])
    );
}

#[test]
fn tools_at_hand() {
    assert_eq!(
        check_system_requirements(true, true),
        texts(&["✅ Conversion tools available: ImageMagick, FFmpeg"])
    );
    assert_eq!(
        check_system_requirements(true, false),
        texts(&["✅ Conversion tools available: ImageMagick"])
    );
    assert_eq!(check_system_requirements(false, true), texts(&["✅ Conversion tools available: FFmpeg"]));
}

#[test]
fn joining_texts() {
    assert_eq!(join_text(&texts(&[]), ", "), "");
    assert_eq!(join_text(&texts(&["a"]), ", "), "a");
    assert_eq!(join_text(&texts(&["a", "b", "c"]), ", "), "a, b, c");
    assert_eq!(join_text(&texts(&["a", "", "c"]), "-"), "a--c");
    assert_eq!(join_text(&texts(&["", ""]), "+"), "+");
    assert_eq!(join_text(&texts(&["x", "y"]), ""), "xy");
}

#[test]
fn usual_extensions_give_no_warning() {
    assert_eq!(warning_for_extension("heic"), None);
    assert_eq!(warning_for_extension("heif"), None);
    assert_eq!(extension_warning("photo.heic"), None);
    assert_eq!(extension_warning("/a/b/PHOTO.HEIF"), None);
    assert_eq!(extension_warning("photo.HeIc"), None);
}

#[test]
fn unusual_extension_gives_a_warning() {
    assert_eq!(
        extension_warning("holiday.PNG"),
        Some(texts(&[
            "⚠️  Warning: File extension 'png' is not typical for HEIC files.",
            "    Expected: .heic or .heif",
            "    Attempting conversion anyway...",
            "",
        ]))
    );
    assert_eq!(
        extension_warning("no_extension"),
        Some(texts(&[
            "⚠️  Warning: File extension '' is not typical for HEIC files.",
            "    Expected: .heic or .heif",
            "    Attempting conversion anyway...",
            "",
        ]))
    );
    assert_eq!(
        warning_for_extension("HEIC").unwrap()[0],
        "⚠️  Warning: File extension 'HEIC' is not typical for HEIC files."
    );
}

#[test]
fn report_of_a_success() {
    let outcome = ConversionOutcome::Success { output_path: "photo.png".to_string() };
    assert_eq!(outcome_report(&outcome, "photo.png"), texts(&["✅ Conversion completed successfully!"]));
}

#[test]
fn report_for_want_of_a_backend() {
    let outcome = ConversionOutcome::Failure {
        error: ConversionError::NoBackendAvailable,
        native_diagnostic: "Unsupported format".to_string(),
        attempts: Vec::new(),
        terminal_message: "HEIC format support is not available.".to_string(),
    };
    assert_eq!(
        outcome_report(&outcome, "photo.png"),
        texts(&[
            "❌ HEIC Conversion Failed - Missing Dependencies",
            "",
            "🔧 Quick Fix Options:",
            "   1. Install ImageMagick: brew install imagemagick",
            "   2. Install FFmpeg: brew install ffmpeg",
            "   3. Use online converter: https://convertio.co/heic-png/",
            "",
            "📱 macOS Users can also:",
            "   • Open HEIC in Preview → Export as PNG/JPEG",
            "   • Use Photos app → Export → JPEG",
            "",
            "Original error: HEIC format support is not available.",
        ])
    );
}

#[test]
fn report_of_a_failed_write() {
    let outcome = ConversionOutcome::Failure {
        error: ConversionError::OutputWriteFailed,
        native_diagnostic: "disk full".to_string(),
        attempts: Vec::new(),
        terminal_message: "Failed to save image to: out/photo.png".to_string(),
    };
    assert_eq!(
        outcome_report(&outcome, "out/photo.png"),
        texts(&[
            "❌ Failed to Save Output File",
            "",
            "Could not write to: out/photo.png",
            "Please check:",
            "   • Disk space availability",
            "   • Write permissions",
            "   • Output directory exists",
        ])
    );
}

#[test]
fn report_of_any_other_failure() {
    for error in [
        ConversionError::BackendUnavailable,
        ConversionError::BackendExecutionFailed(Category::MissingCodec),
        ConversionError::NativeDecodeFailed,
    ] {
        let outcome = ConversionOutcome::Failure {
            error,
            native_diagnostic: String::new(),
            attempts: vec![Attempt {
                backend: Backend::ImageMagick,
                result: BackendResult::Failure {
                    started: true,
                    raw_diagnostic: "boom".to_string(),
                    category: Category::Unknown,
                },
            }],
            terminal_message: "ImageMagick conversion failed: boom".to_string(),
        };
        assert_eq!(
            outcome_report(&outcome, "photo.png"),
            texts(&[
                "❌ Conversion Error: ImageMagick conversion failed: boom",
                "",
                "💡 Try these solutions:",
                "   1. Check if input file is corrupted",
                "   2. Try a different output location",
                "   3. Install conversion tools: brew install imagemagick ffmpeg",
                "   4. Use --bighelp for more options",
            ])
        );
    }
}

#[test]
fn banner_shape() {
    let banner = show_banner();
    let lines: Vec<&str> = banner.split('\n').collect();
    assert_eq!(lines.len(), 19);
    assert_eq!(lines[0], "");
    assert_eq!(lines[1], "");
    assert_eq!(lines[2], "\t ");
    assert_eq!(lines[3], "\t ██╗  ██╗   ███████╗   ██╗    ██████╗   ");
    assert_eq!(lines[8], "\t ╚═╝  ╚═╝   ╚══════╝   ╚═╝    ╚═════╝");
    assert_eq!(lines[9], "\t ");
    assert_eq!(
        lines[15],
        "\t  ╚═════╝    ╚═════╝    ╚═╝  ╚═══╝      ╚═══╝     ╚══════╝   ╚═╝  ╚═╝      ╚═╝"
    );
    assert_eq!(lines[16], "\t ");
    assert_eq!(lines[17], "");
    assert_eq!(lines[18], "");
    assert_eq!(banner.chars().count(), 771);
}

#[test]
fn progress_notices() {
    assert_eq!(native_notice("photo.heic", "photo.png"), "Converting photo.heic to photo.png");
    assert_eq!(
        conversion_notice(Backend::ImageMagick, "photo.heic", "photo.png"),
        "Using ImageMagick to convert photo.heic to photo.png"
    );
    assert_eq!(
        conversion_notice(Backend::Ffmpeg, "a b.heic", "out/a b.jpg"),
        "Using FFmpeg to convert a b.heic to out/a b.jpg"
    );
    assert_eq!(success_notice("out/a b.jpg"), "Successfully converted to out/a b.jpg");
    assert_eq!(
        native_failure_notice("Unsupported format"),
        texts(&[
            "Rust image crate cannot handle this file, trying external tools...",
            "Image crate error: Unsupported format",
        ])
    );
}

#[test]
fn long_help() {
    let help = bighelp();
    let lines: Vec<&str> = help.split('\n').collect();
    assert_eq!(lines.len(), 55);
    assert_eq!(lines[0], "HEIC to PNG/JPG Converter - Detailed Help");
    assert_eq!(lines[1], "=========================================");
    assert_eq!(lines[2], "");
    assert_eq!(lines[54], "  - Online converters: convertio.co, cloudconvert.com");
    assert!(lines.contains(&"BASIC USAGE:"));
    assert!(lines.contains(&"  -f, --format <FORMAT>  Output format: png, jpg, jpeg [default: png]"));
    assert!(lines.contains(&"  for file in *.heic; do heic_convert -i \"$file\" -f png; done"));
    assert!(!help.ends_with('\n'));
}
