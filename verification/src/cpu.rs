//! Target CPU presets and feature-override resolution.
//!
//! A target configuration is either "probe the host at run time" or a fully
//! resolved set of capability flags. The set is built by taking a preset's
//! baseline and applying signed feature-override tokens in order, later
//! tokens overriding earlier ones for the same feature.

use vstd::prelude::*;
use crate::error::ConfigError;
use crate::strutil::{ascii_lower, str_eq, str_eq_ignore_ascii_case};

verus! {

/// A named microarchitecture preset, supplying a default feature baseline.
#[derive(Debug, Clone, Copy, PartialEq, Eq, Structural)]
pub enum TargetCpu {
    Baseline,
    Nehalem,
    Haswell,
    Broadwell,
    Skylake,
    Cannonlake,
    Icelake,
    Znver1,
}

/// One capability flag of the fixed feature set.
#[derive(Debug, Clone, Copy, PartialEq, Eq, Structural)]
pub enum Feature {
    Sse3,
    Ssse3,
    Sse41,
    Sse42,
    Popcnt,
    Avx,
    Bmi1,
    Bmi2,
    Lzcnt,
}

/// A fully resolved set of capability flags: one enabled/disabled state per
/// feature.
#[derive(Debug, Clone, Copy, PartialEq, Eq, Structural)]
pub struct SpecificFeatures {
    pub has_sse3: bool,
    pub has_ssse3: bool,
    pub has_sse41: bool,
    pub has_sse42: bool,
    pub has_popcnt: bool,
    pub has_avx: bool,
    pub has_bmi1: bool,
    pub has_bmi2: bool,
    pub has_lzcnt: bool,
}

/// How target CPU features are chosen: probe the host at run time, or use an
/// explicit, fully resolved set.
#[derive(Debug, Clone, Copy, PartialEq, Eq, Structural)]
pub enum CpuFeatures {
    /// Defer to run-time host-capability probing.
    DetectCpuid,
    /// Use this explicit feature set.
    Specify(SpecificFeatures),
}

/// A pre-validated feature-override token: a sign paired with a feature
/// name.
#[derive(Debug, Clone, Copy, PartialEq, Eq, Structural)]
pub struct FeatureToken {
    /// True enables the feature, false disables it.
    pub enable: bool,
    pub feature: Feature,
}

/// The default feature baseline of each preset. The baseline preset has
/// every flag off; each later generation keeps its predecessors' flags.
pub open spec fn preset_baseline(cpu: TargetCpu) -> SpecificFeatures {
    match cpu {
        TargetCpu::Baseline => SpecificFeatures {
            has_sse3: false,
            has_ssse3: false,
            has_sse41: false,
            has_sse42: false,
            has_popcnt: false,
            has_avx: false,
            has_bmi1: false,
            has_bmi2: false,
            has_lzcnt: false,
        },
        TargetCpu::Nehalem => SpecificFeatures {
            has_sse3: true,
            has_ssse3: true,
            has_sse41: true,
            has_sse42: true,
            has_popcnt: true,
            has_avx: false,
            has_bmi1: false,
            has_bmi2: false,
            has_lzcnt: false,
        },
        _ => SpecificFeatures {
            has_sse3: true,
            has_ssse3: true,
            has_sse41: true,
            has_sse42: true,
            has_popcnt: true,
            has_avx: true,
            has_bmi1: true,
            has_bmi2: true,
            has_lzcnt: true,
        },
    }
}

/// The state of one feature flag in a set.
pub open spec fn feature_of(f: SpecificFeatures, ft: Feature) -> bool {
    match ft {
        Feature::Sse3 => f.has_sse3,
        Feature::Ssse3 => f.has_ssse3,
        Feature::Sse41 => f.has_sse41,
        Feature::Sse42 => f.has_sse42,
        Feature::Popcnt => f.has_popcnt,
        Feature::Avx => f.has_avx,
        Feature::Bmi1 => f.has_bmi1,
        Feature::Bmi2 => f.has_bmi2,
        Feature::Lzcnt => f.has_lzcnt,
    }
}

/// One override token applied to a set: the named flag takes the token's
/// sign, every other flag is unchanged.
pub open spec fn apply_token(f: SpecificFeatures, t: FeatureToken) -> SpecificFeatures {
    match t.feature {
        Feature::Sse3 => SpecificFeatures { has_sse3: t.enable, ..f },
        Feature::Ssse3 => SpecificFeatures { has_ssse3: t.enable, ..f },
        Feature::Sse41 => SpecificFeatures { has_sse41: t.enable, ..f },
        Feature::Sse42 => SpecificFeatures { has_sse42: t.enable, ..f },
        Feature::Popcnt => SpecificFeatures { has_popcnt: t.enable, ..f },
        Feature::Avx => SpecificFeatures { has_avx: t.enable, ..f },
        Feature::Bmi1 => SpecificFeatures { has_bmi1: t.enable, ..f },
        Feature::Bmi2 => SpecificFeatures { has_bmi2: t.enable, ..f },
        Feature::Lzcnt => SpecificFeatures { has_lzcnt: t.enable, ..f },
    }
}

/// A sequence of override tokens applied to a set, in input order.
pub open spec fn apply_tokens(f: SpecificFeatures, ts: Seq<FeatureToken>) -> SpecificFeatures
    decreases ts.len(),
{
    if ts.len() == 0 {
        f
    } else {
        apply_token(apply_tokens(f, ts.drop_last()), ts.last())
    }
}

/// The state a feature ends in after applying a token sequence: the sign of
/// the last token naming it, or its baseline state when no token names it.
pub open spec fn resolved_feature(base: SpecificFeatures, ts: Seq<FeatureToken>, ft: Feature) -> bool
    decreases ts.len(),
{
    if ts.len() == 0 {
        feature_of(base, ft)
    } else if ts.last().feature == ft {
        ts.last().enable
    } else {
        resolved_feature(base, ts.drop_last(), ft)
    }
}

/// Last token wins, per feature: applying a token sequence leaves each flag
/// at the sign of the last token that names it, and every flag that no
/// token names at its baseline state.
pub proof fn lemma_last_token_wins(base: SpecificFeatures, ts: Seq<FeatureToken>, ft: Feature)
    ensures
        feature_of(apply_tokens(base, ts), ft) == resolved_feature(base, ts, ft),
        (forall|i: int| 0 <= i < ts.len() ==> (#[trigger] ts[i]).feature != ft) ==> feature_of(
            apply_tokens(base, ts),
            ft,
        ) == feature_of(base, ft),
    decreases ts.len(),
{
    if ts.len() > 0 {
        lemma_last_token_wins(base, ts.drop_last(), ft);
    }
}

/// Resolves the feature configuration from an optional preset and a
/// sequence of pre-validated override tokens. With neither a preset nor any
/// token, defer to run-time host probing; otherwise start from the preset's
/// baseline (the baseline preset when none is given) and apply the tokens in
/// order.
pub fn resolve_cpu_features(cpu: Option<TargetCpu>, tokens: &Vec<FeatureToken>) -> (r: CpuFeatures)
    ensures
        r is DetectCpuid <==> (cpu is None && tokens@.len() == 0),
        !(cpu is None && tokens@.len() == 0) ==> r == CpuFeatures::Specify(
            apply_tokens(
                preset_baseline(
                    match cpu {
                        Some(c) => c,
                        None => TargetCpu::Baseline,
                    },
                ),
                tokens@,
            ),
        ),
{
    if cpu.is_none() && tokens.len() == 0 {
        CpuFeatures::DetectCpuid
    } else {
        let base = match cpu {
            Some(c) => baseline_features(c),
            None => baseline_features(TargetCpu::Baseline),
        };
        let mut sfs = base;
        let mut i: usize = 0;
        while i < tokens.len()
            invariant
                0 <= i <= tokens@.len(),
                sfs == apply_tokens(base, tokens@.subrange(0, i as int)),
            decreases tokens@.len() - i,
        {
            let t = tokens[i];
            sfs = apply_one(sfs, t);
            proof {
                assert(tokens@.subrange(0, i + 1).drop_last() =~= tokens@.subrange(0, i as int));
            }
            i = i + 1;
        }
        proof {
            assert(tokens@.subrange(0, tokens@.len() as int) =~= tokens@);
        }
        CpuFeatures::Specify(sfs)
    }
}

/// The default feature baseline of a preset, as a value.
pub fn baseline_features(cpu: TargetCpu) -> (r: SpecificFeatures)
    ensures
        r == preset_baseline(cpu),
{
    match cpu {
        TargetCpu::Baseline => SpecificFeatures {
            has_sse3: false,
            has_ssse3: false,
            has_sse41: false,
            has_sse42: false,
            has_popcnt: false,
            has_avx: false,
            has_bmi1: false,
            has_bmi2: false,
            has_lzcnt: false,
        },
        TargetCpu::Nehalem => SpecificFeatures {
            has_sse3: true,
            has_ssse3: true,
            has_sse41: true,
            has_sse42: true,
            has_popcnt: true,
            has_avx: false,
            has_bmi1: false,
            has_bmi2: false,
            has_lzcnt: false,
        },
        _ => SpecificFeatures {
            has_sse3: true,
            has_ssse3: true,
            has_sse41: true,
            has_sse42: true,
            has_popcnt: true,
            has_avx: true,
            has_bmi1: true,
            has_bmi2: true,
            has_lzcnt: true,
        },
    }
}

/// One override token applied to a set, as a value.
pub fn apply_one(f: SpecificFeatures, t: FeatureToken) -> (r: SpecificFeatures)
    ensures
        r == apply_token(f, t),
{
    match t.feature {
        Feature::Sse3 => SpecificFeatures { has_sse3: t.enable, ..f },
        Feature::Ssse3 => SpecificFeatures { has_ssse3: t.enable, ..f },
        Feature::Sse41 => SpecificFeatures { has_sse41: t.enable, ..f },
        Feature::Sse42 => SpecificFeatures { has_sse42: t.enable, ..f },
        Feature::Popcnt => SpecificFeatures { has_popcnt: t.enable, ..f },
        Feature::Avx => SpecificFeatures { has_avx: t.enable, ..f },
        Feature::Bmi1 => SpecificFeatures { has_bmi1: t.enable, ..f },
        Feature::Bmi2 => SpecificFeatures { has_bmi2: t.enable, ..f },
        Feature::Lzcnt => SpecificFeatures { has_lzcnt: t.enable, ..f },
    }
}

/// The preset named by `s`, up to ASCII case.
pub open spec fn cpu_of_name(s: Seq<char>) -> Option<TargetCpu> {
    if ascii_lower(s) == "baseline"@ {
        Some(TargetCpu::Baseline)
    } else if ascii_lower(s) == "nehalem"@ {
        Some(TargetCpu::Nehalem)
    } else if ascii_lower(s) == "haswell"@ {
        Some(TargetCpu::Haswell)
    } else if ascii_lower(s) == "broadwell"@ {
        Some(TargetCpu::Broadwell)
    } else if ascii_lower(s) == "skylake"@ {
        Some(TargetCpu::Skylake)
    } else if ascii_lower(s) == "cannonlake"@ {
        Some(TargetCpu::Cannonlake)
    } else if ascii_lower(s) == "icelake"@ {
        Some(TargetCpu::Icelake)
    } else if ascii_lower(s) == "znver1"@ {
        Some(TargetCpu::Znver1)
    } else {
        None
    }
}

/// The ASCII lower-casing of a known preset name is itself: the names are
/// all lower-case letters and digits.
proof fn lemma_preset_names_lower()
    ensures
        ascii_lower("baseline"@) == "baseline"@,
        ascii_lower("nehalem"@) == "nehalem"@,
        ascii_lower("haswell"@) == "haswell"@,
        ascii_lower("broadwell"@) == "broadwell"@,
        ascii_lower("skylake"@) == "skylake"@,
        ascii_lower("cannonlake"@) == "cannonlake"@,
        ascii_lower("icelake"@) == "icelake"@,
        ascii_lower("znver1"@) == "znver1"@,
{
    reveal_strlit("baseline");
    reveal_strlit("nehalem");
    reveal_strlit("haswell");
    reveal_strlit("broadwell");
    reveal_strlit("skylake");
    reveal_strlit("cannonlake");
    reveal_strlit("icelake");
    reveal_strlit("znver1");
    assert(ascii_lower("baseline"@) =~= "baseline"@);
    assert(ascii_lower("nehalem"@) =~= "nehalem"@);
    assert(ascii_lower("haswell"@) =~= "haswell"@);
    assert(ascii_lower("broadwell"@) =~= "broadwell"@);
    assert(ascii_lower("skylake"@) =~= "skylake"@);
    assert(ascii_lower("cannonlake"@) =~= "cannonlake"@);
    assert(ascii_lower("icelake"@) =~= "icelake"@);
    assert(ascii_lower("znver1"@) =~= "znver1"@);
}

/// Parses a preset name, up to ASCII case. An unknown name is a
/// configuration error carrying the offending input.
pub fn parse_target_cpu(s: &str) -> (r: Result<TargetCpu, ConfigError>)
    ensures
        r is Ok <==> cpu_of_name(s@) is Some,
        r is Ok ==> r == Ok::<TargetCpu, ConfigError>(cpu_of_name(s@).unwrap()),
        r is Err ==> (r matches Err(ConfigError::UnsupportedCpu(v)) && v@ == s@),
{
    proof {
        lemma_preset_names_lower();
    }
    if str_eq_ignore_ascii_case(s, "baseline") {
        Ok(TargetCpu::Baseline)
    } else if str_eq_ignore_ascii_case(s, "nehalem") {
        Ok(TargetCpu::Nehalem)
    } else if str_eq_ignore_ascii_case(s, "haswell") {
        Ok(TargetCpu::Haswell)
    } else if str_eq_ignore_ascii_case(s, "broadwell") {
        Ok(TargetCpu::Broadwell)
    } else if str_eq_ignore_ascii_case(s, "skylake") {
        Ok(TargetCpu::Skylake)
    } else if str_eq_ignore_ascii_case(s, "cannonlake") {
        Ok(TargetCpu::Cannonlake)
    } else if str_eq_ignore_ascii_case(s, "icelake") {
        Ok(TargetCpu::Icelake)
    } else if str_eq_ignore_ascii_case(s, "znver1") {
        Ok(TargetCpu::Znver1)
    } else {
        Err(ConfigError::UnsupportedCpu(s.to_owned()))
    }
}

/// The feature named by `s`, matched exactly.
pub open spec fn feature_of_name(s: Seq<char>) -> Option<Feature> {
    if s == "sse3"@ {
        Some(Feature::Sse3)
    } else if s == "ssse3"@ {
        Some(Feature::Ssse3)
    } else if s == "sse41"@ {
        Some(Feature::Sse41)
    } else if s == "sse42"@ {
        Some(Feature::Sse42)
    } else if s == "popcnt"@ {
        Some(Feature::Popcnt)
    } else if s == "avx"@ {
        Some(Feature::Avx)
    } else if s == "bmi1"@ {
        Some(Feature::Bmi1)
    } else if s == "bmi2"@ {
        Some(Feature::Bmi2)
    } else if s == "lzcnt"@ {
        Some(Feature::Lzcnt)
    } else {
        None
    }
}

/// The override token written as `s`: a sign character followed by a known
/// feature name.
pub open spec fn token_of_string(s: Seq<char>) -> Option<FeatureToken> {
    if s.len() >= 1 && (s[0] == '+' || s[0] == '-') && feature_of_name(s.skip(1)) is Some {
        Some(
            FeatureToken {
                enable: s[0] == '+',
                feature: feature_of_name(s.skip(1)).unwrap(),
            },
        )
    } else {
        None
    }
}

/// Parses one feature-override token: a sign (`+` or `-`) followed by a
/// known feature name. Anything else is a configuration error carrying the
/// offending input.
pub fn parse_feature_token(s: &str) -> (r: Result<FeatureToken, ConfigError>)
    ensures
        r is Ok <==> token_of_string(s@) is Some,
        r is Ok ==> r == Ok::<FeatureToken, ConfigError>(token_of_string(s@).unwrap()),
        r is Err ==> (r matches Err(ConfigError::InvalidFeature(v)) && v@ == s@),
{
    let len = s.unicode_len();
    if len == 0 {
        return Err(ConfigError::InvalidFeature(s.to_owned()));
    }
    let sign = s.get_char(0);
    if !(sign == '+' || sign == '-') {
        return Err(ConfigError::InvalidFeature(s.to_owned()));
    }
    let rest = s.substring_char(1, len);
    assert(rest@ =~= s@.skip(1));
    let feature = if str_eq(rest, "sse3") {
        Some(Feature::Sse3)
    } else if str_eq(rest, "ssse3") {
        Some(Feature::Ssse3)
    } else if str_eq(rest, "sse41") {
        Some(Feature::Sse41)
    } else if str_eq(rest, "sse42") {
        Some(Feature::Sse42)
    } else if str_eq(rest, "popcnt") {
        Some(Feature::Popcnt)
    } else if str_eq(rest, "avx") {
        Some(Feature::Avx)
    } else if str_eq(rest, "bmi1") {
        Some(Feature::Bmi1)
    } else if str_eq(rest, "bmi2") {
        Some(Feature::Bmi2)
    } else if str_eq(rest, "lzcnt") {
        Some(Feature::Lzcnt)
    } else {
        None
    };
    match feature {
        Some(f) => Ok(FeatureToken { enable: sign == '+', feature: f }),
        None => Err(ConfigError::InvalidFeature(s.to_owned())),
    }
}

/// Every string of `fs` is a well-formed override token.
pub open spec fn tokens_valid(fs: Seq<Seq<char>>) -> bool {
    forall|i: int| 0 <= i < fs.len() ==> token_of_string(#[trigger] fs[i]) is Some
}

/// The tokens written by the strings of `fs`, in order.
pub open spec fn tokens_of(fs: Seq<Seq<char>>) -> Seq<FeatureToken> {
    Seq::new(fs.len(), |i: int| token_of_string(fs[i]).unwrap())
}

/// The index of the first string of `fs` that is not a well-formed token.
pub open spec fn first_invalid(fs: Seq<Seq<char>>) -> int
    decreases fs.len(),
{
    if fs.len() == 0 {
        0
    } else if token_of_string(fs.first()) is None {
        0
    } else {
        1 + first_invalid(fs.drop_first())
    }
}

proof fn lemma_first_invalid(fs: Seq<Seq<char>>, i: int)
    requires
        0 <= i < fs.len(),
        forall|j: int| 0 <= j < i ==> token_of_string(#[trigger] fs[j]) is Some,
        token_of_string(fs[i]) is None,
    ensures
        first_invalid(fs) == i,
    decreases i,
{
    if i > 0 {
        assert(fs.drop_first()[i - 1] == fs[i]);
        assert(forall|j: int| 0 <= j < i - 1 ==> #[trigger] fs.drop_first()[j] == fs[j + 1]);
        lemma_first_invalid(fs.drop_first(), i - 1);
    }
}

/// What the resolver yields for a preset choice and pre-parsed tokens.
pub open spec fn resolved_cpu_features(cpu: Option<TargetCpu>, ts: Seq<FeatureToken>) -> CpuFeatures {
    if cpu is None && ts.len() == 0 {
        CpuFeatures::DetectCpuid
    } else {
        CpuFeatures::Specify(
            apply_tokens(
                preset_baseline(
                    match cpu {
                        Some(c) => c,
                        None => TargetCpu::Baseline,
                    },
                ),
                ts,
            ),
        )
    }
}

/// Host probing is chosen exactly when nothing was asked for: the resolver
/// defers to run-time detection if and only if no preset and no override
/// token were supplied; otherwise every flag is determined by the (implicit
/// or explicit) preset baseline followed by the tokens in order.
pub proof fn lemma_detect_host_iff_nothing_given(cpu: Option<TargetCpu>, ts: Seq<FeatureToken>)
    ensures
        resolved_cpu_features(cpu, ts) is DetectCpuid <==> (cpu is None && ts.len() == 0),
        !(cpu is None && ts.len() == 0) ==> resolved_cpu_features(cpu, ts)
            == CpuFeatures::Specify(
            apply_tokens(
                preset_baseline(
                    match cpu {
                        Some(c) => c,
                        None => TargetCpu::Baseline,
                    },
                ),
                ts,
            ),
        ),
{
}

/// Resolves the feature configuration from an optional preset name and
/// feature-override token strings, exactly as the command line supplies
/// them. Defers to run-time host probing when neither is given; an unknown
/// preset name or a malformed token is a configuration error carrying the
/// offending input.
pub fn cpu_features_from_args(cpu: Option<&str>, features: &Vec<String>) -> (r: Result<
    CpuFeatures,
    ConfigError,
>)
    ensures
        r is Ok <==> ((cpu matches Some(s) ==> cpu_of_name(s@) is Some) && tokens_valid(
            features.deep_view(),
        )),
        r is Ok ==> r == Ok::<CpuFeatures, ConfigError>(
            resolved_cpu_features(
                match cpu {
                    Some(s) => Some(cpu_of_name(s@).unwrap()),
                    None => None,
                },
                tokens_of(features.deep_view()),
            ),
        ),
        cpu matches Some(s) ==> (cpu_of_name(s@) is None ==> (r matches Err(
            ConfigError::UnsupportedCpu(v),
        ) && v@ == s@)),
        ((cpu matches Some(s) ==> cpu_of_name(s@) is Some) && !tokens_valid(features.deep_view()))
            ==> (r matches Err(ConfigError::InvalidFeature(v)) && v@ == features.deep_view()[
            first_invalid(features.deep_view())
        ]),
{
    let ghost fs = features.deep_view();
    if cpu.is_none() && features.len() == 0 {
        assert(fs.len() == 0);
        return Ok(CpuFeatures::DetectCpuid);
    }
    let preset: Option<TargetCpu> = match cpu {
        None => None,
        Some(s) => match parse_target_cpu(s) {
            Ok(c) => Some(c),
            Err(e) => {
                return Err(e);
            },
        },
    };
    let mut tokens: Vec<FeatureToken> = Vec::new();
    let mut i: usize = 0;
    while i < features.len()
        invariant
            0 <= i <= fs.len(),
            fs == features.deep_view(),
            fs.len() == features@.len(),
            forall|j: int| 0 <= j < fs.len() ==> #[trigger] fs[j] == features@[j]@,
            forall|j: int| 0 <= j < i ==> token_of_string(#[trigger] fs[j]) is Some,
            tokens@ == tokens_of(fs.subrange(0, i as int)),
            cpu matches Some(s) ==> cpu_of_name(s@) is Some,
            cpu matches Some(s) ==> preset == Some(cpu_of_name(s@).unwrap()),
            cpu is None ==> preset is None,
            cpu is None ==> fs.len() > 0,
        decreases fs.len() - i,
    {
        match parse_feature_token(features[i].as_str()) {
            Ok(t) => {
                tokens.push(t);
                proof {
                    assert(tokens@ =~= tokens_of(fs.subrange(0, i + 1)));
                }
            },
            Err(e) => {
                proof {
                    lemma_first_invalid(fs, i as int);
                }
                return Err(e);
            },
        }
        i = i + 1;
    }
    proof {
        assert(fs.subrange(0, fs.len() as int) =~= fs);
    }
    let r = resolve_cpu_features(preset, &tokens);
    assert(!(preset is None && tokens@.len() == 0) ==> r == resolved_cpu_features(
        preset,
        tokens_of(fs),
    ));
    if preset.is_none() && tokens.len() == 0 {
        // Unreachable in fact: with no preset the early return above fired
        // unless some token string exists, and every token string parsed.
        assert(cpu is None && fs.len() > 0);
        assert(tokens@.len() == fs.len());
        assert(false);
    }
    Ok(r)
}

} // verus!
