//! The formats a conversion can produce.

use vstd::prelude::*;

verus! {

/// The format selected for the output file. `Jpg` and `Jpeg` are two
/// spellings of the same format.
#[derive(Clone, Copy, Debug, PartialEq, Eq, Structural)]
pub enum OutputFormat {
    Png,
    Jpg,
    Jpeg,
}

/// The encoding an image is written in.
#[derive(Clone, Copy, Debug, PartialEq, Eq, Structural)]
pub enum ImageKind {
    Png,
    Jpeg,
}

impl OutputFormat {
    /// The encoding that stands behind the selected format.
    pub open spec fn image_kind(self) -> ImageKind {
        match self {
            OutputFormat::Png => ImageKind::Png,
            OutputFormat::Jpg => ImageKind::Jpeg,
            OutputFormat::Jpeg => ImageKind::Jpeg,
        }
    }

    /// The file extension of the selected format, without the dot.
    pub open spec fn extension_text(self) -> Seq<char> {
        match self {
            OutputFormat::Png => "png"@,
            OutputFormat::Jpg => "jpg"@,
            OutputFormat::Jpeg => "jpg"@,
        }
    }

    /// Maps the selected format to the encoding the image is written in.
    pub fn to_image_format(&self) -> (kind: ImageKind)
        ensures
            kind == self.image_kind(),
    {
        match self {
            OutputFormat::Png => ImageKind::Png,
            OutputFormat::Jpg => ImageKind::Jpeg,
            OutputFormat::Jpeg => ImageKind::Jpeg,
        }
    }

    /// The file extension for the format: `png`, or `jpg` for both JPEG
    /// spellings.
    pub fn extension(&self) -> (ext: &'static str)
        ensures
            ext@ == self.extension_text(),
    {
        match self {
            OutputFormat::Png => "png",
            OutputFormat::Jpg => "jpg",
            OutputFormat::Jpeg => "jpg",
        }
    }
}

} // verus!
