//! The words in which failures are reported: what went wrong, what to
//! install, which command to run.

use vstd::prelude::*;
use vstd::string::*;
use crate::adapter::{BackendResult, BackendResultView};
use crate::backend::Backend;
use crate::diagnostics::Category;
use crate::outcome::{Attempt, AttemptView, ConversionError};
use crate::text::{lemma_occurs_in_middle, lemma_occurs_in_trans, occurs_in};

verus! {

/// Stands before what the native decoder said of its failure, be it in
/// reading the input or in writing the output.
pub const NATIVE_SAID: &'static str = "\nImage crate error: ";

/// What is said where the program of ImageMagick could not be started.
pub const IMAGEMAGICK_NOT_STARTED: &'static str =
    "Failed to execute ImageMagick convert command. Make sure ImageMagick is installed: 'brew install imagemagick'";

/// What is said where the program of FFmpeg could not be started.
pub const FFMPEG_NOT_STARTED: &'static str =
    "Failed to execute FFmpeg command. Make sure FFmpeg is installed: 'brew install ffmpeg'";

/// Stands between what is said of a program that could not be started and
/// what the operating system said of it.
pub const CAUSE_FOLLOWS: &'static str = ": ";

/// Advice where ImageMagick runs but cannot read HEIC.
pub const IMAGEMAGICK_NO_HEIC: &'static str =
    "ImageMagick HEIC support is not available.\nInstall HEIC support with: brew install imagemagick --with-heif\nOr try: brew install libheif && brew reinstall imagemagick\nOriginal error: ";

/// Advice where ImageMagick is not installed.
pub const IMAGEMAGICK_MISSING: &'static str =
    "ImageMagick is not installed or not found in PATH.\nInstall it with: brew install imagemagick\nOriginal error: ";

/// Opens the description of any other failure of ImageMagick.
pub const IMAGEMAGICK_FAILED: &'static str = "ImageMagick conversion failed: ";

/// Advice where FFmpeg is not installed.
pub const FFMPEG_MISSING: &'static str =
    "FFmpeg is not installed or not found in PATH.\nInstall it with: brew install ffmpeg\nOriginal error: ";

/// Advice where FFmpeg cannot read the input.
pub const FFMPEG_CANNOT_DECODE: &'static str =
    "FFmpeg cannot decode this HEIC file. The file may be corrupted or use an unsupported HEIC variant.\nTry installing FFmpeg with additional codec support: brew install ffmpeg --with-libheif\nOriginal error: ";

/// Opens the advice where FFmpeg may not write the output; the output path follows.
pub const FFMPEG_DENIED: &'static str = "Permission denied when trying to write output file: ";

/// Closes the advice where FFmpeg may not write the output.
pub const FFMPEG_DENIED_ADVICE: &'static str =
    "\nCheck file permissions and disk space.\nOriginal error: ";

/// Opens the description of any other failure of FFmpeg.
pub const FFMPEG_FAILED: &'static str = "FFmpeg conversion failed: ";

/// Opens the message of a conversion that failed for want of a backend: how to
/// install each tool, what else can be done, and how little the native decoder
/// can do with HEIC.
pub const NO_BACKEND: &'static str =
    "HEIC format support is not available.\n\nTo enable HEIC conversion, install one of these tools:\n\n1. ImageMagick:\nbrew install imagemagick\n\n2. FFmpeg:\nbrew install ffmpeg\n\n3. System libheif library:\nbrew install libheif\n\nAlternative solutions:\n- Use online converters like convertio.co or cloudconvert.com\n- Use the macOS Preview app: Open HEIC → Export as PNG/JPEG\n- Use Photos app: Export as JPEG\n\nThe Rust image crate has limited HEIC support.";

/// Opens the message of a failed write; the output path follows.
pub const SAVE_FAILED: &'static str = "Failed to save image to: ";

/// The likely causes of a failed write.
pub const SAVE_FAILED_CAUSES: &'static str =
    "\nPossible causes:\n- Insufficient disk space\n- No write permission to directory\n- Invalid output path\n- Output directory doesn't exist";

/// What is said of a backend whose program could not be started: that the
/// command failed to execute, and how to install the tool.
pub open spec fn not_started_text(backend: Backend) -> Seq<char> {
    match backend {
        Backend::ImageMagick => IMAGEMAGICK_NOT_STARTED@,
        Backend::Ffmpeg => FFMPEG_NOT_STARTED@,
    }
}

/// What went wrong in a failed attempt and what to do about it, up to the
/// point where the diagnostic follows. For a program that never ran it is
/// [`not_started_text`] and a colon, whatever the category. For one that ran
/// it goes by the category.
pub open spec fn advice_text(
    backend: Backend,
    started: bool,
    category: Category,
    output_path: Seq<char>,
) -> Seq<char> {
    if !started {
        not_started_text(backend) + CAUSE_FOLLOWS@
    } else {
        match backend {
            Backend::ImageMagick => match category {
                Category::MissingCodec => IMAGEMAGICK_NO_HEIC@,
                Category::MissingExecutable => IMAGEMAGICK_MISSING@,
                _ => IMAGEMAGICK_FAILED@,
            },
            Backend::Ffmpeg => match category {
                Category::MissingExecutable => FFMPEG_MISSING@,
                Category::CorruptOrUnsupportedInput => FFMPEG_CANNOT_DECODE@,
                Category::PermissionDenied => FFMPEG_DENIED@ + output_path
                    + FFMPEG_DENIED_ADVICE@,
                _ => FFMPEG_FAILED@,
            },
        }
    }
}

/// The full description of a failed attempt: the advice, then the
/// diagnostic `raw`, unchanged. For a program that never ran, `raw` is what
/// the operating system said.
pub open spec fn failure_text(
    backend: Backend,
    started: bool,
    category: Category,
    raw: Seq<char>,
    output_path: Seq<char>,
) -> Seq<char> {
    advice_text(backend, started, category, output_path) + raw
}

/// Says that the program of `backend` could not be started, and how to
/// install the tool.
pub fn not_started(backend: Backend) -> (text: String)
    ensures
        text@ == not_started_text(backend),
{
    match backend {
        Backend::ImageMagick => String::from_str(IMAGEMAGICK_NOT_STARTED),
        Backend::Ffmpeg => String::from_str(FFMPEG_NOT_STARTED),
    }
}

/// The advice for a failed attempt of `backend`: for a program that never
/// ran, that it could not be executed; for one that ran, what its category
/// calls for.
pub fn advice(backend: Backend, started: bool, category: Category, output_path: &str) -> (text:
    String)
    ensures
        text@ == advice_text(backend, started, category, output_path@),
{
    if !started {
        let mut text = not_started(backend);
        text.append(CAUSE_FOLLOWS);
        return text;
    }
    match backend {
        Backend::ImageMagick => match category {
            Category::MissingCodec => String::from_str(IMAGEMAGICK_NO_HEIC),
            Category::MissingExecutable => String::from_str(IMAGEMAGICK_MISSING),
            _ => String::from_str(IMAGEMAGICK_FAILED),
        },
        Backend::Ffmpeg => match category {
            Category::MissingExecutable => String::from_str(FFMPEG_MISSING),
            Category::CorruptOrUnsupportedInput => String::from_str(FFMPEG_CANNOT_DECODE),
            Category::PermissionDenied => {
                let mut text = String::from_str(FFMPEG_DENIED);
                text.append(output_path);
                text.append(FFMPEG_DENIED_ADVICE);
                text
            },
            _ => String::from_str(FFMPEG_FAILED),
        },
    }
}

/// Describes a failed attempt: the advice, then the diagnostic `raw` as it
/// was given.
pub fn describe_failure(
    backend: Backend,
    started: bool,
    category: Category,
    raw: &str,
    output_path: &str,
) -> (text: String)
    ensures
        text@ == failure_text(backend, started, category, raw@, output_path@),
{
    let mut text = advice(backend, started, category, output_path);
    text.append(raw);
    text
}

/// The entry of one attempt in a terminal message: the backend's name, the
/// category in brackets, and the description of the failure.
pub open spec fn attempt_text(attempt: AttemptView, output_path: Seq<char>) -> Seq<char> {
    match attempt.result {
        BackendResultView::Success => "\n\n"@ + attempt.backend.name_text() + " succeeded."@,
        BackendResultView::Failure { started, raw_diagnostic, category } => "\n\n"@
            + attempt.backend.name_text() + " ["@ + category.name_text() + "]\n"@ + failure_text(
            attempt.backend,
            started,
            category,
            raw_diagnostic,
            output_path,
        ),
    }
}

/// The entries of `attempts`, one after the other.
pub open spec fn attempts_text(attempts: Seq<AttemptView>, output_path: Seq<char>) -> Seq<char>
    decreases attempts.len(),
{
    if attempts.len() == 0 {
        Seq::empty()
    } else {
        attempts_text(attempts.drop_last(), output_path) + attempt_text(
            attempts.last(),
            output_path,
        )
    }
}

/// What a terminal message opens with. For a failure to write the output it
/// names the path and the likely causes. Otherwise it says that no backend
/// succeeded, how to install each of the two tools, and that the native
/// decoder is of little help with HEIC.
pub open spec fn opening_text(error: ConversionError, output_path: Seq<char>) -> Seq<char> {
    match error {
        ConversionError::OutputWriteFailed => SAVE_FAILED@ + output_path + SAVE_FAILED_CAUSES@,
        _ => NO_BACKEND@,
    }
}

/// The message of a terminal failure: the opening, then what the native
/// decoder said, then one entry for each attempt in the order of trial.
pub open spec fn terminal_text(
    error: ConversionError,
    native_diagnostic: Seq<char>,
    attempts: Seq<AttemptView>,
    output_path: Seq<char>,
) -> Seq<char> {
    opening_text(error, output_path) + NATIVE_SAID@ + native_diagnostic + attempts_text(
        attempts,
        output_path,
    )
}

/// `text` holds what there is to say of `attempt`: the backend's name and,
/// for a failure, the name of its category, the advice for it, the
/// diagnostic as it was given, and the two of them in one piece.
pub open spec fn mentions(text: Seq<char>, attempt: AttemptView, output_path: Seq<char>) -> bool {
    &&& occurs_in(attempt.backend.name_text(), text)
    &&& attempt.result matches BackendResultView::Failure {
        started,
        raw_diagnostic,
        category,
    } ==> {
        &&& occurs_in(category.name_text(), text)
        &&& occurs_in(advice_text(attempt.backend, started, category, output_path), text)
        &&& occurs_in(raw_diagnostic, text)
        &&& occurs_in(
            failure_text(attempt.backend, started, category, raw_diagnostic, output_path),
            text,
        )
    }
}

/// The entry of an attempt holds what there is to say of it.
pub proof fn lemma_entry_mentions_attempt(attempt: AttemptView, output_path: Seq<char>)
    ensures
        mentions(attempt_text(attempt, output_path), attempt, output_path),
{
    let entry = attempt_text(attempt, output_path);
    let name = attempt.backend.name_text();
    let none = Seq::<char>::empty();
    match attempt.result {
        BackendResultView::Success => {
            lemma_occurs_in_middle("\n\n"@, name, " succeeded."@);
        },
        BackendResultView::Failure { started, raw_diagnostic, category } => {
            let advice = advice_text(attempt.backend, started, category, output_path);
            let label = category.name_text();
            let head = "\n\n"@ + name + " ["@ + label + "]\n"@;
            assert(entry =~= "\n\n"@ + name + (" ["@ + label + "]\n"@ + advice + raw_diagnostic));
            lemma_occurs_in_middle(
                "\n\n"@,
                name,
                " ["@ + label + "]\n"@ + advice + raw_diagnostic,
            );
            assert(entry =~= ("\n\n"@ + name + " ["@) + label + ("]\n"@ + advice
                + raw_diagnostic));
            lemma_occurs_in_middle(
                "\n\n"@ + name + " ["@,
                label,
                "]\n"@ + advice + raw_diagnostic,
            );
            assert(entry =~= head + advice + raw_diagnostic);
            lemma_occurs_in_middle(head, advice, raw_diagnostic);
            assert(entry =~= (head + advice) + raw_diagnostic + none);
            lemma_occurs_in_middle(head + advice, raw_diagnostic, none);
            assert(entry =~= head + (advice + raw_diagnostic) + none);
            lemma_occurs_in_middle(head, advice + raw_diagnostic, none);
        },
    }
}

/// The entry of each attempt stands in the text of all of them.
pub proof fn lemma_entry_in_attempts_text(
    attempts: Seq<AttemptView>,
    output_path: Seq<char>,
    i: int,
)
    requires
        0 <= i < attempts.len(),
    ensures
        occurs_in(attempt_text(attempts[i], output_path), attempts_text(attempts, output_path)),
    decreases attempts.len(),
{
    let whole = attempts_text(attempts, output_path);
    let earlier = attempts_text(attempts.drop_last(), output_path);
    let last = attempt_text(attempts.last(), output_path);
    let none = Seq::<char>::empty();
    if i == attempts.len() - 1 {
        assert(whole =~= earlier + last + none);
        lemma_occurs_in_middle(earlier, last, none);
    } else {
        lemma_entry_in_attempts_text(attempts.drop_last(), output_path, i);
        assert(whole =~= none + earlier + last);
        lemma_occurs_in_middle(none, earlier, last);
        lemma_occurs_in_trans(attempt_text(attempts[i], output_path), earlier, whole);
    }
}

/// What a text holds, a longer text around it holds too.
pub proof fn lemma_mentions_in_whole(
    part: Seq<char>,
    whole: Seq<char>,
    attempt: AttemptView,
    output_path: Seq<char>,
)
    requires
        mentions(part, attempt, output_path),
        occurs_in(part, whole),
    ensures
        mentions(whole, attempt, output_path),
{
    lemma_occurs_in_trans(attempt.backend.name_text(), part, whole);
    match attempt.result {
        BackendResultView::Success => {},
        BackendResultView::Failure { started, raw_diagnostic, category } => {
            lemma_occurs_in_trans(category.name_text(), part, whole);
            lemma_occurs_in_trans(
                advice_text(attempt.backend, started, category, output_path),
                part,
                whole,
            );
            lemma_occurs_in_trans(raw_diagnostic, part, whole);
            lemma_occurs_in_trans(
                failure_text(attempt.backend, started, category, raw_diagnostic, output_path),
                part,
                whole,
            );
        },
    }
}

/// A terminal message loses nothing: it holds what the native decoder said,
/// unchanged, and for every attempt the backend's name, the category of the
/// failure, the advice for it, and the backend's own diagnostic, unchanged.
pub proof fn lemma_terminal_text_loses_nothing(
    error: ConversionError,
    native_diagnostic: Seq<char>,
    attempts: Seq<AttemptView>,
    output_path: Seq<char>,
)
    ensures
        occurs_in(native_diagnostic, terminal_text(error, native_diagnostic, attempts, output_path)),
        forall|i: int|
            0 <= i < attempts.len() ==> mentions(
                terminal_text(error, native_diagnostic, attempts, output_path),
                #[trigger] attempts[i],
                output_path,
            ),
{
    let whole = terminal_text(error, native_diagnostic, attempts, output_path);
    let entries = attempts_text(attempts, output_path);
    let opening = opening_text(error, output_path) + NATIVE_SAID@;
    let head = opening + native_diagnostic;
    let none = Seq::<char>::empty();
    assert(whole =~= opening + native_diagnostic + entries);
    lemma_occurs_in_middle(opening, native_diagnostic, entries);
    assert(whole =~= head + entries + none);
    lemma_occurs_in_middle(head, entries, none);
    assert forall|i: int| 0 <= i < attempts.len() implies mentions(
        whole,
        #[trigger] attempts[i],
        output_path,
    ) by {
        let entry = attempt_text(attempts[i], output_path);
        lemma_entry_mentions_attempt(attempts[i], output_path);
        lemma_entry_in_attempts_text(attempts, output_path, i);
        lemma_occurs_in_trans(entry, entries, whole);
        lemma_mentions_in_whole(entry, whole, attempts[i], output_path);
    }
}

/// Writes the entry of one attempt for a terminal message.
pub fn describe_attempt(attempt: &Attempt, output_path: &str) -> (text: String)
    ensures
        text@ == attempt_text(attempt@, output_path@),
{
    let mut text = String::from_str("\n\n");
    text.append(attempt.backend.name());
    match &attempt.result {
        BackendResult::Success => {
            text.append(" succeeded.");
        },
        BackendResult::Failure { started, raw_diagnostic, category } => {
            text.append(" [");
            text.append(category.name());
            text.append("]\n");
            let failure = describe_failure(
                attempt.backend,
                *started,
                *category,
                raw_diagnostic.as_str(),
                output_path,
            );
            text.append(failure.as_str());
        },
    }
    text
}

/// Writes the message of a terminal failure.
pub fn terminal_message(
    error: ConversionError,
    native_diagnostic: &str,
    attempts: &Vec<Attempt>,
    output_path: &str,
) -> (text: String)
    ensures
        text@ == terminal_text(error, native_diagnostic@, attempts.deep_view(), output_path@),
{
    let mut text = match error {
        ConversionError::OutputWriteFailed => {
            let mut opening = String::from_str(SAVE_FAILED);
            opening.append(output_path);
            opening.append(SAVE_FAILED_CAUSES);
            opening
        },
        _ => String::from_str(NO_BACKEND),
    };
    text.append(NATIVE_SAID);
    text.append(native_diagnostic);
    let ghost head = text@;
    let ghost all = attempts.deep_view();
    assert(all.take(0) =~= Seq::<AttemptView>::empty());
    assert(head + attempts_text(all.take(0), output_path@) =~= head);
    let mut k: usize = 0;
    while k < attempts.len()
        invariant
            k <= attempts.len(),
            all == attempts.deep_view(),
            head == opening_text(error, output_path@) + NATIVE_SAID@ + native_diagnostic@,
            text@ == head + attempts_text(all.take(k as int), output_path@),
        decreases attempts.len() - k,
    {
        let entry = describe_attempt(&attempts[k], output_path);
        proof {
            let before = all.take(k as int);
            let after = all.take(k + 1);
            assert(after.drop_last() =~= before);
            assert(after.last() == attempts[k as int]@);
            assert(head + attempts_text(before, output_path@) + entry@ =~= head + (attempts_text(
                before,
                output_path@,
            ) + entry@));
        }
        text.append(entry.as_str());
        k += 1;
    }
    assert(all.take(k as int) =~= all);
    text
}

} // verus!
