//! File names: where the output goes when no path is given, and whether an
//! input looks like HEIC by its extension.
//!
//! Paths are taken apart and put together by `std::path`, whose rules are
//! those of the platform the crate is built for. The parts come back as text
//! through `to_string_lossy`, which leaves the parts of a path that was text
//! as they are.

use vstd::prelude::*;
use vstd::string::*;
use crate::format::OutputFormat;
use crate::text::same_text;

verus! {

/// What `Path::file_stem` of std gives for `path`: the last component
/// without its extension, if the path has a last component.
pub uninterp spec fn file_stem_of(path: Seq<char>) -> Option<Seq<char>>;

/// What `Path::parent` of std gives for `path`: the path without its last
/// component, if it has one.
pub uninterp spec fn parent_of(path: Seq<char>) -> Option<Seq<char>>;

/// What `Path::extension` of std gives for `path`: what follows the last dot
/// of the last component, if there is such a dot inside it.
pub uninterp spec fn extension_of(path: Seq<char>) -> Option<Seq<char>>;

/// What `Path::join` of std makes of `base` and `name`.
pub uninterp spec fn joined(base: Seq<char>, name: Seq<char>) -> Seq<char>;

/// What `str::to_lowercase` of std makes of `text`.
pub uninterp spec fn lowercase_of(text: Seq<char>) -> Seq<char>;

/// Calls `Path::file_stem` of std on `path`. Believed, not proved: the
/// result is the one named [`file_stem_of`].
#[verifier::external_body]
fn file_stem(path: &str) -> (stem: Option<String>)
    ensures
        stem.deep_view() == file_stem_of(path@),
{
    std::path::Path::new(path).file_stem().map(|stem| stem.to_string_lossy().into_owned())
}

/// Calls `Path::parent` of std on `path`. Believed, not proved: the result
/// is the one named [`parent_of`].
#[verifier::external_body]
fn parent(path: &str) -> (dir: Option<String>)
    ensures
        dir.deep_view() == parent_of(path@),
{
    std::path::Path::new(path).parent().map(|dir| dir.to_string_lossy().into_owned())
}

/// Calls `Path::extension` of std on `path`. Believed, not proved: the
/// result is the one named [`extension_of`].
#[verifier::external_body]
fn extension(path: &str) -> (ext: Option<String>)
    ensures
        ext.deep_view() == extension_of(path@),
{
    std::path::Path::new(path).extension().map(|ext| ext.to_string_lossy().into_owned())
}

/// Calls `Path::join` of std. Believed, not proved: the result is the one
/// named [`joined`].
#[verifier::external_body]
fn join(base: &str, name: &str) -> (path: String)
    ensures
        path@ == joined(base@, name@),
{
    std::path::Path::new(base).join(name).to_string_lossy().into_owned()
}

/// Calls `str::to_lowercase` of std. Believed, not proved: the result is the
/// one named [`lowercase_of`].
#[verifier::external_body]
fn lowercase(text: &str) -> (lowered: String)
    ensures
        lowered@ == lowercase_of(text@),
{
    text.to_lowercase()
}

/// The name of the output file for an input with the given stem: the stem,
/// a dot, and the extension of the format. An input without a stem gives a
/// name that begins with the dot.
pub open spec fn output_name(stem: Option<Seq<char>>, format: OutputFormat) -> Seq<char> {
    let stem_text = match stem {
        Some(text) => text,
        None => Seq::empty(),
    };
    stem_text + "."@ + format.extension_text()
}

/// The directory of the output file for an input with the given parent: the
/// parent, or the current directory where the input has none.
pub open spec fn output_directory(parent: Option<Seq<char>>) -> Seq<char> {
    match parent {
        Some(dir) => dir,
        None => "."@,
    }
}

/// The path at which the output of `input` is written when none is given:
/// beside the input, under the input's stem and the format's extension.
pub open spec fn generated_path(input: Seq<char>, format: OutputFormat) -> Seq<char> {
    joined(output_directory(parent_of(input)), output_name(file_stem_of(input), format))
}

/// The extensions under which HEIC files usually go, in lower case.
pub open spec fn is_heic_extension(lowered: Seq<char>) -> bool {
    lowered == "heic"@ || lowered == "heif"@
}

/// The extension of `path` in lower case; empty where the path has none.
pub open spec fn lowered_extension(path: Seq<char>) -> Seq<char> {
    lowercase_of(
        match extension_of(path) {
            Some(ext) => ext,
            None => Seq::empty(),
        },
    )
}

/// Names the output file: `stem`, a dot, and the extension of `format`.
pub fn name_output(stem: Option<String>, format: &OutputFormat) -> (name: String)
    ensures
        name@ == output_name(stem.deep_view(), *format),
{
    let mut name = match stem {
        Some(text) => text,
        None => String::new(),
    };
    name.append(".");
    name.append(format.extension());
    name
}

/// Chooses the directory of the output file: `parent`, or `.` where there
/// is none.
pub fn choose_directory(parent: Option<String>) -> (dir: String)
    ensures
        dir@ == output_directory(parent.deep_view()),
{
    match parent {
        Some(dir) => dir,
        None => String::from_str("."),
    }
}

/// Generates the output path for `input`: in the directory of the input, the
/// input's file name with its extension replaced by that of `format`.
pub fn generate_output_path(input: &str, format: &OutputFormat) -> (path: String)
    ensures
        path@ == generated_path(input@, *format),
{
    let name = name_output(file_stem(input), format);
    let dir = choose_directory(parent(input));
    join(dir.as_str(), name.as_str())
}

/// Whether `lowered`, an extension in lower case, is one of `heic` and
/// `heif`.
pub fn is_typical_extension(lowered: &str) -> (typical: bool)
    ensures
        typical == is_heic_extension(lowered@),
{
    same_text(lowered, "heic") || same_text(lowered, "heif")
}

/// The extension of `path` in lower case, and empty where it has none.
pub fn input_extension(path: &str) -> (lowered: String)
    ensures
        lowered@ == lowered_extension(path@),
{
    let ext = match extension(path) {
        Some(ext) => ext,
        None => String::new(),
    };
    lowercase(ext.as_str())
}

} // verus!
