use heic_convert::backend::Backend;
use heic_convert::diagnostics::{classify, classify_with, rules_for, Category, Pattern};

#[test]
fn imagemagick_missing_delegate_is_missing_codec() {
    let raw = "convert: no decode delegate for this image format `' @ error/constitute.c/ReadImage/746.";
    assert_eq!(classify(raw, Backend::ImageMagick), Category::MissingCodec);
    assert_eq!(classify("decode delegate", Backend::ImageMagick), Category::MissingCodec);
}

#[test]
fn imagemagick_mention_of_heic_is_missing_codec() {
    assert_eq!(
        classify("convert: unable to open image 'a.HEIC'", Backend::ImageMagick),
        Category::MissingCodec
    );
    assert_eq!(classify("convert: heic is lower case here", Backend::ImageMagick), Category::Unknown);
}

#[test]
fn imagemagick_missing_tool() {
    assert_eq!(
        classify("sh: convert: command not found", Backend::ImageMagick),
        Category::MissingExecutable
    );
    assert_eq!(
        classify("convert: No such file or directory", Backend::ImageMagick),
        Category::MissingExecutable
    );
}

#[test]
fn imagemagick_codec_rule_comes_before_tool_rule() {
    assert_eq!(
        classify("command not found while reading HEIC", Backend::ImageMagick),
        Category::MissingCodec
    );
}

#[test]
fn imagemagick_other_text_is_unknown() {
    assert_eq!(classify("convert: memory allocation failed", Backend::ImageMagick), Category::Unknown);
    assert_eq!(classify("", Backend::ImageMagick), Category::Unknown);
    assert_eq!(classify("Permission denied", Backend::ImageMagick), Category::Unknown);
    assert_eq!(classify("Invalid data found", Backend::ImageMagick), Category::Unknown);
}

#[test]
fn ffmpeg_missing_tool_needs_both_fragments() {
    assert_eq!(
        classify("ffmpeg: No such file or directory", Backend::Ffmpeg),
        Category::MissingExecutable
    );
    assert_eq!(classify("photo.heic: No such file or directory", Backend::Ffmpeg), Category::Unknown);
    assert_eq!(classify("ffmpeg version 6.0", Backend::Ffmpeg), Category::Unknown);
}

#[test]
fn ffmpeg_unreadable_input() {
    assert_eq!(
        classify("photo.heic: Invalid data found when processing input", Backend::Ffmpeg),
        Category::CorruptOrUnsupportedInput
    );
    assert_eq!(classify("Invalid data", Backend::Ffmpeg), Category::CorruptOrUnsupportedInput);
    assert_eq!(
        classify("[mov] could not find codec parameters", Backend::Ffmpeg),
        Category::CorruptOrUnsupportedInput
    );
}

#[test]
fn ffmpeg_permission_denied() {
    assert_eq!(classify("out.png: Permission denied", Backend::Ffmpeg), Category::PermissionDenied);
}

#[test]
fn ffmpeg_rules_are_tried_in_order() {
    assert_eq!(
        classify("ffmpeg: No such file or directory; Invalid data; Permission denied", Backend::Ffmpeg),
        Category::MissingExecutable
    );
    assert_eq!(
        classify("Permission denied, could not find codec", Backend::Ffmpeg),
        Category::CorruptOrUnsupportedInput
    );
}

#[test]
fn ffmpeg_other_text_is_unknown() {
    assert_eq!(classify("", Backend::Ffmpeg), Category::Unknown);
    assert_eq!(classify("Conversion failed!", Backend::Ffmpeg), Category::Unknown);
    assert_eq!(classify("no decode delegate", Backend::Ffmpeg), Category::Unknown);
    assert_eq!(classify("HEIC", Backend::Ffmpeg), Category::Unknown);
}

#[test]
fn odd_text_is_sorted_without_failing() {
    let raw = "\u{0}\u{FFFD}\n\t→ 📱 \\ \" {} %s";
    assert_eq!(classify(raw, Backend::ImageMagick), Category::Unknown);
    assert_eq!(classify(raw, Backend::Ffmpeg), Category::Unknown);
    let long = "x".repeat(20_000) + "Permission denied";
    assert_eq!(classify(&long, Backend::Ffmpeg), Category::PermissionDenied);
}

#[test]
fn documented_tables() {
    let imagemagick = rules_for(Backend::ImageMagick);
    assert_eq!(imagemagick.len(), 4);
    assert_eq!(
        imagemagick[0],
        Pattern { fragments: vec!["decode delegate".to_string()], category: Category::MissingCodec }
    );
    assert_eq!(
        imagemagick[1],
        Pattern { fragments: vec!["HEIC".to_string()], category: Category::MissingCodec }
    );
    assert_eq!(
        imagemagick[2],
        Pattern {
            fragments: vec!["command not found".to_string()],
            category: Category::MissingExecutable
        }
    );
    assert_eq!(
        imagemagick[3],
        Pattern { fragments: vec!["No such file".to_string()], category: Category::MissingExecutable }
    );
    let ffmpeg = rules_for(Backend::Ffmpeg);
    assert_eq!(ffmpeg.len(), 4);
    assert_eq!(
        ffmpeg[0],
        Pattern {
            fragments: vec!["No such file or directory".to_string(), "ffmpeg".to_string()],
            category: Category::MissingExecutable
        }
    );
    assert_eq!(
        ffmpeg[1],
        Pattern {
            fragments: vec!["Invalid data".to_string()],
            category: Category::CorruptOrUnsupportedInput
        }
    );
    assert_eq!(
        ffmpeg[2],
        Pattern {
            fragments: vec!["could not find codec".to_string()],
            category: Category::CorruptOrUnsupportedInput
        }
    );
    assert_eq!(
        ffmpeg[3],
        Pattern {
            fragments: vec!["Permission denied".to_string()],
            category: Category::PermissionDenied
        }
    );
}

#[test]
fn custom_table_first_match_wins() {
    let rules = vec![
        Pattern {
            fragments: vec!["disk".to_string(), "full".to_string()],
            category: Category::PermissionDenied,
        },
        Pattern { fragments: vec!["disk".to_string()], category: Category::CorruptOrUnsupportedInput },
    ];
    assert_eq!(classify_with(&rules, "the disk is full"), Category::PermissionDenied);
    assert_eq!(classify_with(&rules, "full disk"), Category::PermissionDenied);
    assert_eq!(classify_with(&rules, "disk error"), Category::CorruptOrUnsupportedInput);
    assert_eq!(classify_with(&rules, "full"), Category::Unknown);
}

#[test]
fn custom_table_edge_cases() {
    assert_eq!(classify_with(&Vec::new(), "anything"), Category::Unknown);
    let catch_all = vec![Pattern { fragments: Vec::new(), category: Category::MissingCodec }];
    assert_eq!(classify_with(&catch_all, "anything"), Category::MissingCodec);
    assert_eq!(classify_with(&catch_all, ""), Category::MissingCodec);
}

#[test]
fn category_names() {
    assert_eq!(Category::MissingCodec.name(), "MissingCodec");
    assert_eq!(Category::MissingExecutable.name(), "MissingExecutable");
    assert_eq!(Category::PermissionDenied.name(), "PermissionDenied");
    assert_eq!(Category::CorruptOrUnsupportedInput.name(), "CorruptOrUnsupportedInput");
    assert_eq!(Category::Unknown.name(), "Unknown");
}
