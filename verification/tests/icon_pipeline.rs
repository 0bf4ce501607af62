//! Tests of the icon pipeline: classification, the resampling policy, the
//! duplicate-slot policy, and the container round trip against the icns crate
//! as an independent reader.

use osx_bundle::classify::{classify, DensityClass, IconSlot};
use osx_bundle::family::IconFamilyBuilder;
use osx_bundle::pipeline::{
    build_family, finish_synthesis, process_candidate, CandidateInput, CandidateOutcome,
    DecodeFailure, SynthesisOutcome,
};
use osx_bundle::raster::{PixelFormat, RasterImage};
use osx_bundle::resample::{pow2_floor, resample};

fn image_with(width: u32, height: u32, format: PixelFormat, seed: u8) -> RasterImage {
    let channels = match format {
        PixelFormat::Gray8 => 1usize,
        PixelFormat::GrayAlpha8 => 2usize,
        PixelFormat::Rgb8 => 3usize,
        PixelFormat::Rgba8 => 4usize,
    };
    let len = width as usize * height as usize * channels;
    let mut data = Vec::with_capacity(len);
    for i in 0..len {
        data.push(((i as u64 * 31 + seed as u64) % 251) as u8);
    }
    RasterImage::new(width, height, format, data).expect("well-formed image")
}

#[test]
fn classify_is_pure() {
    let a = classify(256, DensityClass::Standard);
    let b = classify(256, DensityClass::Standard);
    assert_eq!(a, b);
    assert_eq!(a, Some(IconSlot::Std256));
}

#[test]
fn classify_table() {
    assert_eq!(classify(16, DensityClass::Standard), Some(IconSlot::Std16));
    assert_eq!(classify(32, DensityClass::Double), Some(IconSlot::Dbl16));
    assert_eq!(classify(48, DensityClass::Standard), Some(IconSlot::Std48));
    assert_eq!(classify(64, DensityClass::Double), Some(IconSlot::Dbl32));
    assert_eq!(classify(1024, DensityClass::Double), Some(IconSlot::Dbl512));
    assert_eq!(classify(1024, DensityClass::Standard), None);
    assert_eq!(classify(300, DensityClass::Standard), None);
    assert_eq!(classify(128, DensityClass::Double), None);
    assert_eq!(classify(0, DensityClass::Standard), None);
}

#[test]
fn pow2_floor_examples() {
    assert_eq!(pow2_floor(300), 256);
    assert_eq!(pow2_floor(256), 256);
    assert_eq!(pow2_floor(1), 1);
    assert_eq!(pow2_floor(2), 2);
    assert_eq!(pow2_floor(3), 2);
    assert_eq!(pow2_floor(1023), 512);
}

#[test]
fn resample_shrinks_to_target() {
    let img = image_with(300, 300, PixelFormat::Rgba8, 7);
    let small = resample(&img, 256);
    assert_eq!(small.width, 256);
    assert_eq!(small.height, 256);
    assert_eq!(small.format, PixelFormat::Rgba8);
    assert_eq!(small.data.len(), 256 * 256 * 4);
}

#[test]
fn oversized_image_resampled_once_then_added() {
    let mut b = IconFamilyBuilder::new();
    let img = image_with(300, 300, PixelFormat::Rgba8, 3);
    let outcome = process_candidate(&mut b, &img, DensityClass::Standard);
    assert_eq!(outcome, CandidateOutcome::Added(IconSlot::Std256));
    assert!(b.has_slot(IconSlot::Std256));
    assert!(!b.is_empty());
}

#[test]
fn power_of_two_without_slot_is_terminal() {
    let mut b = IconFamilyBuilder::new();
    let img = image_with(1024, 1024, PixelFormat::Rgba8, 5);
    let outcome = process_candidate(&mut b, &img, DensityClass::Standard);
    assert_eq!(outcome, CandidateOutcome::SkippedNoUsableSize);
    assert!(b.is_empty());
}

#[test]
fn non_square_image_reduced_to_smaller_edge() {
    let mut b = IconFamilyBuilder::new();
    let img = image_with(64, 96, PixelFormat::Rgba8, 9);
    let outcome = process_candidate(&mut b, &img, DensityClass::Standard);
    assert_eq!(outcome, CandidateOutcome::Added(IconSlot::Std64));
}

#[test]
fn double_density_resampled_to_double_slot() {
    // 300 pixels at double density: the floor power of two is 256, which is
    // the 128-point double-density slot.
    let mut b = IconFamilyBuilder::new();
    let img = image_with(300, 300, PixelFormat::Rgba8, 8);
    let outcome = process_candidate(&mut b, &img, DensityClass::Double);
    assert_eq!(outcome, CandidateOutcome::Added(IconSlot::Dbl128));
}

#[test]
fn resample_retry_can_still_miss() {
    // 200 pixels at double density resamples to 128, which has no
    // double-density slot: the retry happens once and the candidate is
    // dropped, not retried again.
    let mut b = IconFamilyBuilder::new();
    let img = image_with(200, 200, PixelFormat::Rgba8, 10);
    let outcome = process_candidate(&mut b, &img, DensityClass::Double);
    assert_eq!(outcome, CandidateOutcome::SkippedNoUsableSize);
    assert!(b.is_empty());
}

#[test]
fn duplicate_slot_first_candidate_wins() {
    let inputs = vec![
        CandidateInput::Decoded {
            image: image_with(256, 256, PixelFormat::Rgba8, 1),
            density: DensityClass::Standard,
        },
        CandidateInput::Decoded {
            image: image_with(256, 256, PixelFormat::Rgba8, 200),
            density: DensityClass::Standard,
        },
    ];
    let (b, outcomes) = build_family(&inputs);
    assert_eq!(
        outcomes,
        vec![
            CandidateOutcome::Added(IconSlot::Std256),
            CandidateOutcome::SkippedDuplicate(IconSlot::Std256),
        ]
    );
    assert!(b.has_slot(IconSlot::Std256));
    // Exactly one entry: the container holds the first candidate's pixels.
    let bytes = b.serialize();
    let family = icns::IconFamily::read(&bytes[..]).expect("readable container");
    let icon = family
        .get_icon_with_type(icns::IconType::RGBA32_256x256)
        .expect("icon present");
    let first = image_with(256, 256, PixelFormat::Rgba8, 1);
    assert_eq!(icon.data(), &first.data[..]);
}

#[test]
fn undecodable_candidates_are_recorded_and_skipped() {
    let inputs = vec![
        CandidateInput::Undecodable { failure: DecodeFailure::Unreadable },
        CandidateInput::Undecodable { failure: DecodeFailure::UnsupportedFormat },
        CandidateInput::Decoded {
            image: image_with(512, 512, PixelFormat::Rgb8, 2),
            density: DensityClass::Standard,
        },
    ];
    let (b, outcomes) = build_family(&inputs);
    assert_eq!(
        outcomes,
        vec![
            CandidateOutcome::SkippedUnreadable,
            CandidateOutcome::SkippedUnsupportedFormat,
            CandidateOutcome::Added(IconSlot::Std512),
        ]
    );
    assert!(!b.is_empty());
}

#[test]
fn round_trip_rgba() {
    round_trip_at_256(PixelFormat::Rgba8, icns::IconType::RGBA32_256x256);
}

#[test]
fn round_trip_rgb() {
    round_trip_at_256(PixelFormat::Rgb8, icns::IconType::RGBA32_256x256);
}

#[test]
fn round_trip_gray() {
    round_trip_at_256(PixelFormat::Gray8, icns::IconType::RGBA32_256x256);
}

#[test]
fn round_trip_gray_alpha() {
    round_trip_at_256(PixelFormat::GrayAlpha8, icns::IconType::RGBA32_256x256);
}

fn round_trip_at_256(format: PixelFormat, icon_type: icns::IconType) {
    let img = image_with(256, 256, format, 11);
    let mut b = IconFamilyBuilder::new();
    let outcome = process_candidate(&mut b, &img, DensityClass::Standard);
    assert_eq!(outcome, CandidateOutcome::Added(IconSlot::Std256));
    let bytes = b.serialize();
    let family = icns::IconFamily::read(&bytes[..]).expect("readable container");
    let icon = family.get_icon_with_type(icon_type).expect("icon present");
    assert_eq!(icon.data(), &img.data[..]);
}

#[test]
fn round_trip_compressed_slot() {
    // The 128-pixel slot stores a run-length-compressed raster plus a mask;
    // both are lossless, so the pixels come back byte-identical.
    let img = image_with(128, 128, PixelFormat::Rgba8, 13);
    let mut b = IconFamilyBuilder::new();
    let outcome = process_candidate(&mut b, &img, DensityClass::Standard);
    assert_eq!(outcome, CandidateOutcome::Added(IconSlot::Std128));
    let bytes = b.serialize();
    let family = icns::IconFamily::read(&bytes[..]).expect("readable container");
    let icon = family
        .get_icon_with_type(icns::IconType::RGB24_128x128)
        .expect("icon present");
    assert_eq!(icon.data(), &img.data[..]);
}

#[test]
fn serialized_container_bears_magic_header() {
    let mut b = IconFamilyBuilder::new();
    let img = image_with(16, 16, PixelFormat::Rgba8, 4);
    assert_eq!(
        process_candidate(&mut b, &img, DensityClass::Standard),
        CandidateOutcome::Added(IconSlot::Std16)
    );
    let bytes = b.serialize();
    assert!(bytes.len() >= 8);
    assert_eq!(&bytes[0..4], b"icns");
}

#[test]
fn finish_synthesis_outcomes() {
    let empty = IconFamilyBuilder::new();
    match finish_synthesis(&empty, 0) {
        SynthesisOutcome::NoCandidates => {}
        _ => panic!("zero candidates must yield no icon"),
    }
    match finish_synthesis(&empty, 3) {
        SynthesisOutcome::NoUsableIcons => {}
        _ => panic!("candidates without insertions must be reported unusable"),
    }
    let mut b = IconFamilyBuilder::new();
    let img = image_with(32, 32, PixelFormat::Rgb8, 6);
    assert_eq!(
        process_candidate(&mut b, &img, DensityClass::Standard),
        CandidateOutcome::Added(IconSlot::Std32)
    );
    match finish_synthesis(&b, 1) {
        SynthesisOutcome::Container(bytes) => assert_eq!(&bytes[0..4], b"icns"),
        _ => panic!("a non-empty family must serialize"),
    }
}

#[test]
fn identical_runs_serialize_identically() {
    let make_inputs = || {
        vec![
            CandidateInput::Decoded {
                image: image_with(256, 256, PixelFormat::Rgba8, 21),
                density: DensityClass::Standard,
            },
            CandidateInput::Undecodable { failure: DecodeFailure::Unreadable },
            CandidateInput::Decoded {
                image: image_with(300, 300, PixelFormat::Rgb8, 22),
                density: DensityClass::Standard,
            },
            CandidateInput::Decoded {
                image: image_with(32, 32, PixelFormat::Gray8, 23),
                density: DensityClass::Double,
            },
        ]
    };
    let (b1, outs1) = build_family(&make_inputs());
    let (b2, outs2) = build_family(&make_inputs());
    assert_eq!(outs1, outs2);
    assert_eq!(b1.serialize(), b2.serialize());
}

#[test]
fn free_slot_candidate_is_always_added() {
    // Success is owed: a classifiable candidate whose slot is free is added,
    // never silently dropped.
    let mut b = IconFamilyBuilder::new();
    for (dim, format, seed) in [
        (16u32, PixelFormat::Gray8, 31u8),
        (32, PixelFormat::GrayAlpha8, 32),
        (48, PixelFormat::Rgb8, 33),
        (128, PixelFormat::Rgba8, 34),
        (512, PixelFormat::Rgba8, 35),
    ] {
        let img = image_with(dim, dim, format, seed);
        let outcome = process_candidate(&mut b, &img, DensityClass::Standard);
        assert!(matches!(outcome, CandidateOutcome::Added(_)));
    }
}

#[test]
fn raster_image_rejects_bad_buffer() {
    assert!(RasterImage::new(2, 2, PixelFormat::Rgb8, vec![0u8; 12]).is_some());
    assert!(RasterImage::new(2, 2, PixelFormat::Rgb8, vec![0u8; 11]).is_none());
    assert!(RasterImage::new(0, 2, PixelFormat::Rgb8, vec![]).is_none());
    assert!(RasterImage::new(2, 0, PixelFormat::Rgb8, vec![]).is_none());
}
