use std::io::Cursor;

use heic_convert::format::{ImageKind, OutputFormat};
use heic_convert::orchestrator::{Action, Event, Orchestrator, Phase};
use heic_convert::outcome::{ConversionOutcome, NativeResult};
use heic_convert::request::{ConversionRequest, FileFacts, InputFacts};
use image::{DynamicImage, ImageFormat, Rgb, RgbImage};

fn image_format(kind: ImageKind) -> ImageFormat {
    match kind {
        ImageKind::Png => ImageFormat::Png,
        ImageKind::Jpeg => ImageFormat::Jpeg,
    }
}

fn sample_png(width: u32, height: u32) -> Vec<u8> {
    let picture = RgbImage::from_fn(width, height, |x, y| {
        Rgb([(x * 30 % 256) as u8, (y * 40 % 256) as u8, 128])
    });
    let mut bytes = Vec::new();
    DynamicImage::ImageRgb8(picture)
        .write_to(&mut Cursor::new(&mut bytes), ImageFormat::Png)
        .unwrap();
    bytes
}

#[test]
fn native_round_trip_keeps_dimensions() {
    let input = sample_png(7, 5);
    for format in [OutputFormat::Png, OutputFormat::Jpg, OutputFormat::Jpeg] {
        let facts = InputFacts {
            exists: true,
            metadata: Ok(FileFacts { is_file: true, len: input.len() as u64 }),
        };
        let request =
            ConversionRequest::new("picture.png".to_string(), &facts, None, format).unwrap();
        let (chain, action) = Orchestrator::new(request).step(Event::Start);
        let kind = match action {
            Action::DecodeNative { format, .. } => format,
            other => panic!("the native decoder was not asked first: {:?}", other),
        };
        assert_eq!(kind, format.to_image_format());

        let decoded = image::load_from_memory_with_format(&input, ImageFormat::Png).unwrap();
        let mut output = Vec::new();
        decoded.write_to(&mut Cursor::new(&mut output), image_format(kind)).unwrap();

        let (chain, action) = chain.step(Event::Native(NativeResult::Converted));
        assert_eq!(action, Action::Finish);
        assert_eq!(chain.phase(), Phase::Succeeded);
        assert_eq!(
            chain.into_outcome(),
            Some(ConversionOutcome::Success {
                output_path: format!("picture.{}", format.extension())
            })
        );

        assert_eq!(image::guess_format(&output).unwrap(), image_format(kind));
        let written = image::load_from_memory(&output).unwrap();
        assert_eq!((written.width(), written.height()), (7, 5));
    }
}
