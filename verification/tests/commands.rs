use heic_convert::adapter::{
    attempt_result, failure_from_text, probe_result, BackendCapability, BackendResult, ProcessOutput,
};
use heic_convert::backend::{Backend, CommandLine};
use heic_convert::diagnostics::Category;
use heic_convert::outcome::ConversionError;

fn texts(items: &[&str]) -> Vec<String> {
    items.iter().map(|item| item.to_string()).collect()
}

#[test]
fn probe_commands() {
    assert_eq!(
        Backend::ImageMagick.probe_command(),
        CommandLine { program: "convert".to_string(), args: texts(&["-version"]) }
    );
    assert_eq!(
        Backend::Ffmpeg.probe_command(),
        CommandLine { program: "ffmpeg".to_string(), args: texts(&["-version"]) }
    );
}

#[test]
fn convert_commands() {
    assert_eq!(
        Backend::ImageMagick.convert_command("in.heic", "out.png"),
        CommandLine { program: "convert".to_string(), args: texts(&["in.heic", "out.png"]) }
    );
    assert_eq!(
        Backend::Ffmpeg.convert_command("in.heic", "out.png"),
        CommandLine {
            program: "ffmpeg".to_string(),
            args: texts(&["-i", "in.heic", "-y", "out.png"])
        }
    );
}

#[test]
fn convert_commands_keep_paths_as_they_are() {
    let input = "/my photos/été 2024/IMG 1.heic";
    let output = "-weird name.jpg";
    assert_eq!(Backend::ImageMagick.convert_command(input, output).args, texts(&[input, output]));
    assert_eq!(
        Backend::Ffmpeg.convert_command(input, output).args,
        texts(&["-i", input, "-y", output])
    );
    assert_eq!(Backend::Ffmpeg.convert_command("", "").args, texts(&["-i", "", "-y", ""]));
}

#[test]
fn backend_names_and_programs() {
    assert_eq!(Backend::ImageMagick.name(), "ImageMagick");
    assert_eq!(Backend::Ffmpeg.name(), "FFmpeg");
    assert_eq!(Backend::ImageMagick.program(), "convert");
    assert_eq!(Backend::Ffmpeg.program(), "ffmpeg");
}

#[test]
fn probe_finds_tool_only_on_exit_status_zero() {
    let ok = ProcessOutput::Exited { success: true, stderr: Vec::new() };
    let noisy_ok = ProcessOutput::Exited { success: true, stderr: b"warning".to_vec() };
    let failed = ProcessOutput::Exited { success: false, stderr: Vec::new() };
    let missing = ProcessOutput::NotStarted { detail: "No such file or directory".to_string() };
    assert_eq!(
        probe_result(Backend::ImageMagick, &ok),
        BackendCapability { backend: Backend::ImageMagick, available: true }
    );
    assert_eq!(
        probe_result(Backend::Ffmpeg, &noisy_ok),
        BackendCapability { backend: Backend::Ffmpeg, available: true }
    );
    assert_eq!(
        probe_result(Backend::Ffmpeg, &failed),
        BackendCapability { backend: Backend::Ffmpeg, available: false }
    );
    assert_eq!(
        probe_result(Backend::ImageMagick, &missing),
        BackendCapability { backend: Backend::ImageMagick, available: false }
    );
}

#[test]
fn attempt_succeeds_on_exit_status_zero() {
    let quiet = ProcessOutput::Exited { success: true, stderr: Vec::new() };
    assert_eq!(attempt_result(Backend::ImageMagick, quiet), BackendResult::Success);
    let noisy = ProcessOutput::Exited {
        success: true,
        stderr: b"photo.heic: Invalid data found; Permission denied".to_vec(),
    };
    assert_eq!(attempt_result(Backend::Ffmpeg, noisy), BackendResult::Success);
}

#[test]
fn failed_attempt_keeps_and_sorts_the_error_output() {
    let raw = "convert: no decode delegate for this image format";
    let output = ProcessOutput::Exited { success: false, stderr: raw.as_bytes().to_vec() };
    assert_eq!(
        attempt_result(Backend::ImageMagick, output.clone()),
        BackendResult::Failure { started: true, raw_diagnostic: raw.to_string(), category: Category::MissingCodec }
    );
    assert_eq!(
        attempt_result(Backend::Ffmpeg, output),
        BackendResult::Failure { started: true, raw_diagnostic: raw.to_string(), category: Category::Unknown }
    );
}

#[test]
fn failed_attempt_without_error_output() {
    let output = ProcessOutput::Exited { success: false, stderr: Vec::new() };
    assert_eq!(
        attempt_result(Backend::Ffmpeg, output),
        BackendResult::Failure { started: true, raw_diagnostic: String::new(), category: Category::Unknown }
    );
}

#[test]
fn error_output_that_is_no_utf8_is_read_lossily() {
    let mut stderr = b"out.png: Permission ".to_vec();
    stderr.push(0xFF);
    stderr.extend_from_slice(b"denied, Permission denied");
    let output = ProcessOutput::Exited { success: false, stderr };
    assert_eq!(
        attempt_result(Backend::Ffmpeg, output),
        BackendResult::Failure {
            started: true,
            raw_diagnostic: "out.png: Permission \u{FFFD}denied, Permission denied".to_string(),
            category: Category::PermissionDenied,
        }
    );
    let broken = ProcessOutput::Exited { success: false, stderr: vec![b'H', b'E', 0xC3, b'I', b'C'] };
    assert_eq!(
        attempt_result(Backend::ImageMagick, broken),
        BackendResult::Failure {
            started: true,
            raw_diagnostic: "HE\u{FFFD}IC".to_string(),
            category: Category::Unknown
        }
    );
}

#[test]
fn tool_that_cannot_be_started_is_missing() {
    let output = ProcessOutput::NotStarted { detail: "Permission denied (os error 13)".to_string() };
    assert_eq!(
        attempt_result(Backend::Ffmpeg, output),
        BackendResult::Failure {
            started: false,
            raw_diagnostic: "Permission denied (os error 13)".to_string(),
            category: Category::MissingExecutable,
        }
    );
}

#[test]
fn failure_from_text_keeps_the_text() {
    assert_eq!(
        failure_from_text(Backend::Ffmpeg, "x: Invalid data found".to_string()),
        BackendResult::Failure {
            started: true,
            raw_diagnostic: "x: Invalid data found".to_string(),
            category: Category::CorruptOrUnsupportedInput,
        }
    );
    assert_eq!(
        failure_from_text(Backend::ImageMagick, String::new()),
        BackendResult::Failure { started: true, raw_diagnostic: String::new(), category: Category::Unknown }
    );
}

#[test]
fn unavailable_backend_is_an_error_of_its_own() {
    let missing = BackendCapability { backend: Backend::Ffmpeg, available: false };
    let found = BackendCapability { backend: Backend::Ffmpeg, available: true };
    assert_eq!(missing.error(), Some(ConversionError::BackendUnavailable));
    assert_eq!(found.error(), None);
}
