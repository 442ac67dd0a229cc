use vstd::prelude::*;

use crate::errors::CoreError;
use crate::text::{str_eq, strings_view};

verus! {

/// The closed enumeration of transcoding recipes the planner knows.
#[derive(Clone, Copy, Debug, PartialEq, Eq, Structural)]
pub enum ConversionKind {
    /// Re-encode an AVI container into MP4 with H.264 video and AAC audio.
    AviToMp4,
    /// Stream-copy an HLS playlist's media into MP4 without re-encoding.
    M3u8ToMp4,
}

/// The closed enumeration of encoder speed/quality trade-offs.
#[derive(Clone, Copy, Debug, PartialEq, Eq, Structural)]
pub enum QualityTier {
    High,
    Medium,
    Low,
}

/// One conversion request as the caller hands it over: paths and the kind
/// and quality hints, still as free text. Immutable once constructed and
/// owned by the call that made it; nothing outlives the run it starts.
#[derive(Debug)]
pub struct ConversionRequest {
    pub input_path: String,
    pub output_path: String,
    pub kind: String,
    pub quality: String,
}

/// Which conversion kind a request string names, if any.
pub open spec fn kind_of(s: Seq<char>) -> Option<ConversionKind> {
    if s == "avi_to_mp4"@ {
        Some(ConversionKind::AviToMp4)
    } else if s == "m3u8_to_mp4"@ {
        Some(ConversionKind::M3u8ToMp4)
    } else {
        None
    }
}

/// Which quality tier a request string names; anything unrecognized falls
/// back to the default tier, `Medium`.
pub open spec fn quality_of(s: Seq<char>) -> QualityTier {
    if s == "high"@ {
        QualityTier::High
    } else if s == "medium"@ {
        QualityTier::Medium
    } else if s == "low"@ {
        QualityTier::Low
    } else {
        QualityTier::Medium
    }
}

/// The encoder preset selected by a quality tier.
pub open spec fn preset_of(q: QualityTier) -> Seq<char> {
    match q {
        QualityTier::High => "slow"@,
        QualityTier::Medium => "medium"@,
        QualityTier::Low => "fast"@,
    }
}

/// The constant-rate-factor value selected by a quality tier.
pub open spec fn crf_of(q: QualityTier) -> Seq<char> {
    match q {
        QualityTier::High => "18"@,
        QualityTier::Medium => "23"@,
        QualityTier::Low => "28"@,
    }
}

/// The full encoder argument list for a conversion, excluding the executable
/// path itself: overwrite flag, input flag and path, the per-kind recipe, and
/// the output path last.
pub open spec fn plan_of(k: ConversionKind, q: QualityTier, input: Seq<char>, output: Seq<
    char,
>) -> Seq<Seq<char>> {
    match k {
        ConversionKind::AviToMp4 => seq![
            "-y"@,
            "-i"@,
            input,
            "-c:v"@,
            "libx264"@,
            "-preset"@,
            preset_of(q),
            "-crf"@,
            crf_of(q),
            "-c:a"@,
            "aac"@,
            "-b:a"@,
            "192k"@,
            output,
        ],
        ConversionKind::M3u8ToMp4 => seq![
            "-y"@,
            "-i"@,
            input,
            "-c"@,
            "copy"@,
            "-bsf:a"@,
            "aac_adtstoasc"@,
            output,
        ],
    }
}

/// Parses a conversion-kind request string.
pub fn parse_conversion_kind(s: &str) -> (r: Option<ConversionKind>)
    ensures
        r == kind_of(s@),
{
    if str_eq(s, "avi_to_mp4") {
        Some(ConversionKind::AviToMp4)
    } else if str_eq(s, "m3u8_to_mp4") {
        Some(ConversionKind::M3u8ToMp4)
    } else {
        None
    }
}

/// Parses a quality request string; unknown strings select the default tier
/// rather than failing.
pub fn parse_quality(s: &str) -> (r: QualityTier)
    ensures
        r == quality_of(s@),
{
    if str_eq(s, "high") {
        QualityTier::High
    } else if str_eq(s, "medium") {
        QualityTier::Medium
    } else if str_eq(s, "low") {
        QualityTier::Low
    } else {
        QualityTier::Medium
    }
}

/// The encoder preset name for a tier, as an owned string.
fn preset_name(q: QualityTier) -> (r: String)
    ensures
        r@ == preset_of(q),
{
    match q {
        QualityTier::High => String::from_str("slow"),
        QualityTier::Medium => String::from_str("medium"),
        QualityTier::Low => String::from_str("fast"),
    }
}

/// The constant-rate-factor value for a tier, as an owned string.
fn crf_value(q: QualityTier) -> (r: String)
    ensures
        r@ == crf_of(q),
{
    match q {
        QualityTier::High => String::from_str("18"),
        QualityTier::Medium => String::from_str("23"),
        QualityTier::Low => String::from_str("28"),
    }
}

/// Builds the ordered encoder argument list for a supported conversion.
/// Pure with respect to its inputs: no I/O, no shared state.
pub fn plan_arguments(k: ConversionKind, q: QualityTier, input: &str, output: &str) -> (r: Vec<
    String,
>)
    ensures
        strings_view(r@) == plan_of(k, q, input@, output@),
{
    let mut args: Vec<String> = Vec::new();
    args.push(String::from_str("-y"));
    args.push(String::from_str("-i"));
    args.push(input.to_owned());
    match k {
        ConversionKind::AviToMp4 => {
            args.push(String::from_str("-c:v"));
            args.push(String::from_str("libx264"));
            args.push(String::from_str("-preset"));
            args.push(preset_name(q));
            args.push(String::from_str("-crf"));
            args.push(crf_value(q));
            args.push(String::from_str("-c:a"));
            args.push(String::from_str("aac"));
            args.push(String::from_str("-b:a"));
            args.push(String::from_str("192k"));
        },
        ConversionKind::M3u8ToMp4 => {
            args.push(String::from_str("-c"));
            args.push(String::from_str("copy"));
            args.push(String::from_str("-bsf:a"));
            args.push(String::from_str("aac_adtstoasc"));
        },
    }
    args.push(output.to_owned());
    proof {
        assert(strings_view(args@) =~= plan_of(k, q, input@, output@));
    }
    args
}

/// The planner's entry point: validates the conversion kind, selects the
/// quality tier (defaulting on unrecognized strings), and emits the argument
/// plan. An unknown kind fails here, at planning time, before any process
/// could be spawned.
pub fn plan_conversion(req: &ConversionRequest) -> (r: Result<Vec<String>, CoreError>)
    ensures
        kind_of(req.kind@) matches Some(k) ==> (r matches Ok(args) && strings_view(args@)
            == plan_of(k, quality_of(req.quality@), req.input_path@, req.output_path@)),
        kind_of(req.kind@) is None ==> (r matches Err(e) && (e matches
            CoreError::UnsupportedConversionKind { kind: rejected } && rejected@ == req.kind@)),
{
    match parse_conversion_kind(req.kind.as_str()) {
        Some(k) => {
            let q = parse_quality(req.quality.as_str());
            Ok(plan_arguments(k, q, req.input_path.as_str(), req.output_path.as_str()))
        },
        None => Err(CoreError::UnsupportedConversionKind { kind: req.kind.clone() }),
    }
}

/// Law: every plan, for every supported kind and every quality tier, opens
/// with the overwrite flag and the input flag, carries the input path third,
/// and ends with the output path.
pub proof fn lemma_plan_frame(k: ConversionKind, q: QualityTier, input: Seq<char>, output: Seq<
    char,
>)
    ensures
        plan_of(k, q, input, output).len() >= 4,
        plan_of(k, q, input, output)[0] == "-y"@,
        plan_of(k, q, input, output)[1] == "-i"@,
        plan_of(k, q, input, output)[2] == input,
        plan_of(k, q, input, output).last() == output,
{
    match k {
        ConversionKind::AviToMp4 => {},
        ConversionKind::M3u8ToMp4 => {},
    }
}

/// Law: the stream-copy recipe never re-encodes. None of its flag positions
/// holds the constant-rate-factor or preset flag, and the AAC bitstream
/// filter is always present. The input and output path positions are exempt
/// from the claim, since a caller may name a file after a flag.
pub proof fn lemma_m3u8_stream_copy(q: QualityTier, input: Seq<char>, output: Seq<char>)
    ensures
        plan_of(ConversionKind::M3u8ToMp4, q, input, output).len() == 8,
        forall|i: int|
            0 <= i < 8 && i != 2 && i != 7 ==> plan_of(ConversionKind::M3u8ToMp4, q, input, output)[i]
                != "-crf"@ && plan_of(ConversionKind::M3u8ToMp4, q, input, output)[i]
                != "-preset"@,
        plan_of(ConversionKind::M3u8ToMp4, q, input, output)[5] == "-bsf:a"@,
{
    let p = plan_of(ConversionKind::M3u8ToMp4, q, input, output);
    reveal_strlit("-y");
    reveal_strlit("-i");
    reveal_strlit("-c");
    reveal_strlit("copy");
    reveal_strlit("-bsf:a");
    reveal_strlit("aac_adtstoasc");
    reveal_strlit("-crf");
    reveal_strlit("-preset");
    assert forall|i: int| 0 <= i < 8 && i != 2 && i != 7 implies p[i] != "-crf"@ && p[i]
        != "-preset"@ by {
        assert("-y"@.len() == 2 && "-i"@.len() == 2 && "-c"@.len() == 2);
        assert("copy"@.len() == 4 && "-bsf:a"@.len() == 6 && "aac_adtstoasc"@.len() == 13);
        assert("-crf"@.len() == 4 && "-preset"@.len() == 7);
        assert("copy"@[0] == 'c' && "-crf"@[0] == '-');
    }
}

} // verus!
