use mediacore::errors::CoreError;
use mediacore::plan::{
    parse_conversion_kind, parse_quality, plan_arguments, plan_conversion, ConversionKind,
    ConversionRequest, QualityTier,
};

fn request(kind: &str, quality: &str, input: &str, output: &str) -> ConversionRequest {
    ConversionRequest {
        input_path: input.to_string(),
        output_path: output.to_string(),
        kind: kind.to_string(),
        quality: quality.to_string(),
    }
}

fn views(args: &[String]) -> Vec<&str> {
    args.iter().map(|s| s.as_str()).collect()
}

#[test]
fn every_supported_plan_opens_and_closes_the_same_way() {
    let kinds = [ConversionKind::AviToMp4, ConversionKind::M3u8ToMp4];
    let tiers = [QualityTier::High, QualityTier::Medium, QualityTier::Low];
    for kind in kinds {
        for tier in tiers {
            let args = plan_arguments(kind, tier, "in.avi", "out.mp4");
            assert_eq!(args[0], "-y");
            assert_eq!(args[1], "-i");
            assert_eq!(args[2], "in.avi");
            assert_eq!(args[args.len() - 1], "out.mp4");
        }
    }
}

#[test]
fn avi_high_quality_selects_slow_preset_and_crf_18() {
    let args = plan_conversion(&request("avi_to_mp4", "high", "clip.avi", "clip.mp4")).unwrap();
    let v = views(&args);
    assert_eq!(
        v,
        vec![
            "-y", "-i", "clip.avi", "-c:v", "libx264", "-preset", "slow", "-crf", "18", "-c:a",
            "aac", "-b:a", "192k", "clip.mp4"
        ]
    );
}

#[test]
fn avi_unrecognized_quality_falls_back_to_medium_defaults() {
    let args = plan_conversion(&request("avi_to_mp4", "ultra-mega", "clip.avi", "clip.mp4")).unwrap();
    let v = views(&args);
    assert!(v.contains(&"medium"));
    assert!(v.contains(&"23"));
    assert!(!v.contains(&"slow"));
    assert!(!v.contains(&"18"));
}

#[test]
fn avi_medium_and_low_tiers_select_their_presets() {
    let medium = plan_conversion(&request("avi_to_mp4", "medium", "a.avi", "a.mp4")).unwrap();
    assert!(views(&medium).contains(&"medium"));
    assert!(views(&medium).contains(&"23"));
    let low = plan_conversion(&request("avi_to_mp4", "low", "a.avi", "a.mp4")).unwrap();
    assert!(views(&low).contains(&"fast"));
    assert!(views(&low).contains(&"28"));
}

#[test]
fn m3u8_plan_stream_copies_without_crf_or_preset() {
    for quality in ["high", "medium", "low", "whatever"] {
        let args = plan_conversion(&request("m3u8_to_mp4", quality, "list.m3u8", "out.mp4")).unwrap();
        let v = views(&args);
        assert_eq!(
            v,
            vec!["-y", "-i", "list.m3u8", "-c", "copy", "-bsf:a", "aac_adtstoasc", "out.mp4"]
        );
        assert!(!v.contains(&"-crf"));
        assert!(!v.contains(&"-preset"));
        assert!(v.contains(&"-bsf:a"));
    }
}

#[test]
fn unknown_kind_fails_at_planning_time() {
    let r = plan_conversion(&request("gif_to_webm", "high", "a.gif", "a.webm"));
    match r {
        Err(CoreError::UnsupportedConversionKind { kind }) => assert_eq!(kind, "gif_to_webm"),
        _ => panic!("expected an unsupported-conversion-kind error"),
    }
}

#[test]
fn kind_and_quality_parsing() {
    assert!(matches!(
        parse_conversion_kind("avi_to_mp4"),
        Some(ConversionKind::AviToMp4)
    ));
    assert!(matches!(
        parse_conversion_kind("m3u8_to_mp4"),
        Some(ConversionKind::M3u8ToMp4)
    ));
    assert!(parse_conversion_kind("AVI_TO_MP4").is_none());
    assert!(parse_conversion_kind("").is_none());
    assert_eq!(parse_quality("high"), QualityTier::High);
    assert_eq!(parse_quality("medium"), QualityTier::Medium);
    assert_eq!(parse_quality("low"), QualityTier::Low);
    assert_eq!(parse_quality("HIGH"), QualityTier::Medium);
    assert_eq!(parse_quality(""), QualityTier::Medium);
}
