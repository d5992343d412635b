//! Sorting the error output of a backend into a few categories, each of
//! which has a remedy.
//!
//! The classifier is a heuristic over text. It looks for known fragments and
//! falls back to [`Category::Unknown`]; it never fails, whatever the text.

use vstd::prelude::*;
use vstd::string::*;
use crate::backend::Backend;
use crate::text::{chars_of, find_in, occurs_in};

verus! {

/// Why a backend's attempt failed, as far as its error output tells.
#[derive(Clone, Copy, Debug, PartialEq, Eq, Structural)]
pub enum Category {
    /// The tool runs but cannot read HEIC.
    MissingCodec,
    /// The tool, or something it needs, is not installed.
    MissingExecutable,
    /// The output could not be written for want of permission.
    PermissionDenied,
    /// The input is damaged or of a variant the tool does not know.
    CorruptOrUnsupportedInput,
    /// None of the known fragments occurs in the output.
    Unknown,
}

impl Category {
    /// The name of the category, as messages show it.
    pub open spec fn name_text(self) -> Seq<char> {
        match self {
            Category::MissingCodec => "MissingCodec"@,
            Category::MissingExecutable => "MissingExecutable"@,
            Category::PermissionDenied => "PermissionDenied"@,
            Category::CorruptOrUnsupportedInput => "CorruptOrUnsupportedInput"@,
            Category::Unknown => "Unknown"@,
        }
    }

    /// The name of the category, as messages show it.
    pub fn name(&self) -> (name: &'static str)
        ensures
            name@ == self.name_text(),
    {
        match self {
            Category::MissingCodec => "MissingCodec",
            Category::MissingExecutable => "MissingExecutable",
            Category::PermissionDenied => "PermissionDenied",
            Category::CorruptOrUnsupportedInput => "CorruptOrUnsupportedInput",
            Category::Unknown => "Unknown",
        }
    }
}

/// One rule of a classifier: a diagnostic in which every one of `fragments`
/// occurs falls into `category`.
#[derive(Clone, Debug, PartialEq, Eq)]
pub struct Pattern {
    pub fragments: Vec<String>,
    pub category: Category,
}

/// What a [`Pattern`] says, its fragments taken as text.
pub struct PatternView {
    pub fragments: Seq<Seq<char>>,
    pub category: Category,
}

impl View for Pattern {
    type V = PatternView;

    open spec fn view(&self) -> PatternView {
        PatternView { fragments: self.fragments.deep_view(), category: self.category }
    }
}

impl DeepView for Pattern {
    type V = PatternView;

    open spec fn deep_view(&self) -> PatternView {
        self@
    }
}

impl PatternView {
    /// Every fragment of the pattern occurs in `raw`.
    pub open spec fn matches(self, raw: Seq<char>) -> bool {
        forall|i: int| 0 <= i < self.fragments.len() ==> occurs_in(#[trigger] self.fragments[i], raw)
    }
}

/// The category of the first of `rules` that matches `raw`, and
/// [`Category::Unknown`] where none does.
pub open spec fn first_match(rules: Seq<PatternView>, raw: Seq<char>) -> Category
    decreases rules.len(),
{
    if rules.len() == 0 {
        Category::Unknown
    } else if rules[0].matches(raw) {
        rules[0].category
    } else {
        first_match(rules.drop_first(), raw)
    }
}

/// The category of a diagnostic that `backend` printed.
///
/// ImageMagick: a missing delegate, or any mention of HEIC, means the codec is
/// missing; a shell's or loader's complaint means the tool is. FFmpeg: a
/// missing file that names ffmpeg means the tool is missing; invalid data or
/// a codec not found means the input cannot be read; then a denied
/// permission. Whatever is left is unknown.
pub open spec fn category_of(raw: Seq<char>, backend: Backend) -> Category {
    match backend {
        Backend::ImageMagick => {
            if occurs_in("decode delegate"@, raw) || occurs_in("HEIC"@, raw) {
                Category::MissingCodec
            } else if occurs_in("command not found"@, raw) || occurs_in("No such file"@, raw) {
                Category::MissingExecutable
            } else {
                Category::Unknown
            }
        },
        Backend::Ffmpeg => {
            if occurs_in("No such file or directory"@, raw) && occurs_in("ffmpeg"@, raw) {
                Category::MissingExecutable
            } else if occurs_in("Invalid data"@, raw) || occurs_in("could not find codec"@, raw) {
                Category::CorruptOrUnsupportedInput
            } else if occurs_in("Permission denied"@, raw) {
                Category::PermissionDenied
            } else {
                Category::Unknown
            }
        },
    }
}

/// A pattern of one fragment.
pub open spec fn one(fragment: Seq<char>, category: Category) -> PatternView {
    PatternView { fragments: seq![fragment], category }
}

/// A pattern of two fragments, both of which must occur.
pub open spec fn both(first: Seq<char>, second: Seq<char>, category: Category) -> PatternView {
    PatternView { fragments: seq![first, second], category }
}

/// The rules by which the diagnostics of `backend` are sorted, in the order
/// in which they are tried.
pub open spec fn documented_rules(backend: Backend) -> Seq<PatternView> {
    match backend {
        Backend::ImageMagick => seq![
            one("decode delegate"@, Category::MissingCodec),
            one("HEIC"@, Category::MissingCodec),
            one("command not found"@, Category::MissingExecutable),
            one("No such file"@, Category::MissingExecutable),
        ],
        Backend::Ffmpeg => seq![
            both("No such file or directory"@, "ffmpeg"@, Category::MissingExecutable),
            one("Invalid data"@, Category::CorruptOrUnsupportedInput),
            one("could not find codec"@, Category::CorruptOrUnsupportedInput),
            one("Permission denied"@, Category::PermissionDenied),
        ],
    }
}

/// The documented rules sort a diagnostic as [`category_of`] says.
pub proof fn lemma_documented_rules(raw: Seq<char>, backend: Backend)
    ensures
        first_match(documented_rules(backend), raw) == category_of(raw, backend),
{
    reveal_with_fuel(first_match, 5);
    let rules = documented_rules(backend);
    match backend {
        Backend::ImageMagick => {
            let r1 = rules.drop_first();
            let r2 = r1.drop_first();
            let r3 = r2.drop_first();
            let r4 = r3.drop_first();
            assert(r4.len() == 0);
            assert(rules[0].fragments[0] == "decode delegate"@);
            assert(r1[0].fragments[0] == "HEIC"@);
            assert(r2[0].fragments[0] == "command not found"@);
            assert(r3[0].fragments[0] == "No such file"@);
        },
        Backend::Ffmpeg => {
            let r1 = rules.drop_first();
            let r2 = r1.drop_first();
            let r3 = r2.drop_first();
            let r4 = r3.drop_first();
            assert(r4.len() == 0);
            assert(rules[0].fragments[0] == "No such file or directory"@);
            assert(rules[0].fragments[1] == "ffmpeg"@);
            assert(r1[0].fragments[0] == "Invalid data"@);
            assert(r2[0].fragments[0] == "could not find codec"@);
            assert(r3[0].fragments[0] == "Permission denied"@);
        },
    }
}

/// Whether every fragment of `pattern` occurs in the characters `raw`.
fn pattern_matches(pattern: &Pattern, raw: &Vec<char>) -> (hit: bool)
    ensures
        hit == pattern@.matches(raw@),
{
    let mut k: usize = 0;
    while k < pattern.fragments.len()
        invariant
            k <= pattern.fragments.len(),
            forall|i: int| 0 <= i < k ==> occurs_in(#[trigger] pattern@.fragments[i], raw@),
        decreases pattern.fragments.len() - k,
    {
        let fragment = chars_of(pattern.fragments[k].as_str());
        assert(fragment@ == pattern@.fragments[k as int]);
        if !find_in(raw, &fragment) {
            return false;
        }
        k += 1;
    }
    true
}

/// Sorts `raw` by a table of rules: the first rule all of whose fragments
/// occur in `raw` gives the category, and where none matches the category is
/// [`Category::Unknown`].
pub fn classify_with(rules: &Vec<Pattern>, raw: &str) -> (category: Category)
    ensures
        category == first_match(rules.deep_view(), raw@),
{
    let text = chars_of(raw);
    let ghost all = rules.deep_view();
    assert(all.skip(0) =~= all);
    let mut k: usize = 0;
    while k < rules.len()
        invariant
            k <= rules.len(),
            text@ == raw@,
            all == rules.deep_view(),
            first_match(all, raw@) == first_match(all.skip(k as int), raw@),
        decreases rules.len() - k,
    {
        let ghost rest = all.skip(k as int);
        assert(rest[0] == rules[k as int]@);
        assert(rest.drop_first() =~= all.skip(k + 1));
        if pattern_matches(&rules[k], &text) {
            return rules[k].category;
        }
        k += 1;
    }
    assert(all.skip(k as int).len() == 0);
    Category::Unknown
}

fn single(fragment: &str, category: Category) -> (pattern: Pattern)
    ensures
        pattern@ == one(fragment@, category),
{
    let mut fragments: Vec<String> = Vec::new();
    fragments.push(String::from_str(fragment));
    let pattern = Pattern { fragments, category };
    assert(pattern@.fragments =~= seq![fragment@]);
    pattern
}

fn pair(first: &str, second: &str, category: Category) -> (pattern: Pattern)
    ensures
        pattern@ == both(first@, second@, category),
{
    let mut fragments: Vec<String> = Vec::new();
    fragments.push(String::from_str(first));
    fragments.push(String::from_str(second));
    let pattern = Pattern { fragments, category };
    assert(pattern@.fragments =~= seq![first@, second@]);
    pattern
}

/// The table of rules for `backend`.
pub fn rules_for(backend: Backend) -> (rules: Vec<Pattern>)
    ensures
        rules.deep_view() == documented_rules(backend),
{
    let mut rules: Vec<Pattern> = Vec::new();
    match backend {
        Backend::ImageMagick => {
            rules.push(single("decode delegate", Category::MissingCodec));
            rules.push(single("HEIC", Category::MissingCodec));
            rules.push(single("command not found", Category::MissingExecutable));
            rules.push(single("No such file", Category::MissingExecutable));
        },
        Backend::Ffmpeg => {
            rules.push(pair("No such file or directory", "ffmpeg", Category::MissingExecutable));
            rules.push(single("Invalid data", Category::CorruptOrUnsupportedInput));
            rules.push(single("could not find codec", Category::CorruptOrUnsupportedInput));
            rules.push(single("Permission denied", Category::PermissionDenied));
        },
    }
    assert(rules.deep_view() =~= documented_rules(backend));
    rules
}

/// Sorts the diagnostic `raw` of `backend` into a category.
pub fn classify(raw: &str, backend: Backend) -> (category: Category)
    ensures
        category == category_of(raw@, backend),
{
    let rules = rules_for(backend);
    proof {
        lemma_documented_rules(raw@, backend);
    }
    classify_with(&rules, raw)
}

} // verus!
