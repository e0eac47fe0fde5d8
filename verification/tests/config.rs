use lucet_core::cpu::{
    cpu_features_from_args, parse_feature_token, parse_target_cpu, CpuFeatures, Feature,
    FeatureToken, SpecificFeatures, TargetCpu,
};
use lucet_core::error::ConfigError;
use lucet_core::options::{
    CodegenOutput, HeapDefaults, OptLevel, Options, RawArgs, DEFAULT_GUARD_SIZE,
    DEFAULT_MAX_RESERVED_SIZE, DEFAULT_MIN_RESERVED_SIZE,
};
use lucet_core::sizes::{parse_dec_u64, parse_humansized};

fn empty_args() -> RawArgs {
    RawArgs {
        input: vec![],
        output: None,
        emit: None,
        bindings: vec![],
        builtins: None,
        min_reserved_size: None,
        max_reserved_size: None,
        reserved_size: None,
        guard_size: None,
        opt_level: None,
        target_cpu: None,
        target_features: vec![],
        keygen: false,
        sign: false,
        verify: false,
        pk_path: None,
        sk_path: None,
        count_instructions: false,
    }
}

fn haswell_baseline() -> SpecificFeatures {
    SpecificFeatures {
        has_sse3: true,
        has_ssse3: true,
        has_sse41: true,
        has_sse42: true,
        has_popcnt: true,
        has_avx: true,
        has_bmi1: true,
        has_bmi2: true,
        has_lzcnt: true,
    }
}

#[test]
fn detect_host_iff_nothing_given() {
    let r = cpu_features_from_args(None, &vec![]).unwrap();
    assert_eq!(r, CpuFeatures::DetectCpuid);

    let r = cpu_features_from_args(Some("baseline"), &vec![]).unwrap();
    assert!(matches!(r, CpuFeatures::Specify(_)));

    let r = cpu_features_from_args(None, &vec!["+avx".to_string()]).unwrap();
    assert!(matches!(r, CpuFeatures::Specify(_)));
}

#[test]
fn baseline_preset_has_all_flags_off() {
    let r = cpu_features_from_args(Some("baseline"), &vec![]).unwrap();
    let expected = SpecificFeatures {
        has_sse3: false,
        has_ssse3: false,
        has_sse41: false,
        has_sse42: false,
        has_popcnt: false,
        has_avx: false,
        has_bmi1: false,
        has_bmi2: false,
        has_lzcnt: false,
    };
    assert_eq!(r, CpuFeatures::Specify(expected));
}

#[test]
fn no_preset_with_tokens_starts_from_baseline() {
    let r = cpu_features_from_args(None, &vec!["+avx".to_string()]).unwrap();
    let expected = SpecificFeatures {
        has_sse3: false,
        has_ssse3: false,
        has_sse41: false,
        has_sse42: false,
        has_popcnt: false,
        has_avx: true,
        has_bmi1: false,
        has_bmi2: false,
        has_lzcnt: false,
    };
    assert_eq!(r, CpuFeatures::Specify(expected));
}

#[test]
fn last_token_wins_on_haswell() {
    let feats = vec!["+avx".to_string(), "-avx".to_string()];
    let r = cpu_features_from_args(Some("haswell"), &feats).unwrap();
    let expected = SpecificFeatures { has_avx: false, ..haswell_baseline() };
    assert_eq!(r, CpuFeatures::Specify(expected));
}

#[test]
fn preset_names_are_case_insensitive() {
    assert_eq!(parse_target_cpu("Haswell").unwrap(), TargetCpu::Haswell);
    assert_eq!(parse_target_cpu("SKYLAKE").unwrap(), TargetCpu::Skylake);
    assert_eq!(parse_target_cpu("znver1").unwrap(), TargetCpu::Znver1);
}

#[test]
fn unknown_preset_is_an_error() {
    let e = parse_target_cpu("notacpu").unwrap_err();
    match &e {
        ConfigError::UnsupportedCpu(v) => assert_eq!(v, "notacpu"),
        other => panic!("wrong error: {:?}", other),
    }
    assert_eq!(
        e.message(),
        "unsupported CPU: notacpu; expected one of baseline, nehalem, haswell, broadwell, \
         skylake, cannonlake, icelake, znver1"
    );

    let r = cpu_features_from_args(Some("notacpu"), &vec![]);
    assert!(matches!(r, Err(ConfigError::UnsupportedCpu(_))));
}

#[test]
fn malformed_feature_token_is_an_error() {
    let e = parse_feature_token("avx").unwrap_err();
    assert!(matches!(e, ConfigError::InvalidFeature(_)));
    let e = parse_feature_token("+notafeature").unwrap_err();
    assert!(matches!(e, ConfigError::InvalidFeature(_)));
    let t = parse_feature_token("-lzcnt").unwrap();
    assert_eq!(t, FeatureToken { enable: false, feature: Feature::Lzcnt });
}

#[test]
fn parse_dec_u64_exact() {
    assert_eq!(parse_dec_u64("0"), Some(0));
    assert_eq!(parse_dec_u64("4096"), Some(4096));
    assert_eq!(parse_dec_u64("18446744073709551615"), Some(u64::MAX));
    assert_eq!(parse_dec_u64("18446744073709551616"), None);
    assert_eq!(parse_dec_u64(""), None);
    assert_eq!(parse_dec_u64("12a"), None);
}

#[test]
fn humansized_accepts_bare_and_suffixed() {
    assert_eq!(parse_humansized("4096").unwrap(), 4096);
    assert_eq!(parse_humansized("64 KiB").unwrap(), 65536);
    assert_eq!(parse_humansized("1 MB").unwrap(), 1000000);
    let e = parse_humansized("garbage").unwrap_err();
    match e {
        ConfigError::InvalidSize(v) => assert_eq!(v, "garbage"),
        other => panic!("wrong error: {:?}", other),
    }
}

#[test]
fn from_args_defaults() {
    let o = Options::from_args(&empty_args()).unwrap();
    assert_eq!(o.output, "a.out");
    assert!(o.input.is_empty());
    assert_eq!(o.codegen, CodegenOutput::SharedObj);
    assert_eq!(o.opt_level, OptLevel::Standard);
    assert_eq!(o.cpu_features, CpuFeatures::DetectCpuid);
    assert_eq!(o.min_reserved_size, None);
    assert!(!o.keygen && !o.sign && !o.verify && !o.count_instructions);
}

#[test]
fn from_args_emit_values() {
    let mut m = empty_args();
    m.emit = Some("clif".to_string());
    assert_eq!(Options::from_args(&m).unwrap().codegen, CodegenOutput::Clif);
    m.emit = Some("obj".to_string());
    assert_eq!(Options::from_args(&m).unwrap().codegen, CodegenOutput::Obj);
    m.emit = Some("so".to_string());
    assert_eq!(Options::from_args(&m).unwrap().codegen, CodegenOutput::SharedObj);
    m.emit = Some("elf".to_string());
    let e = Options::from_args(&m).unwrap_err();
    match e {
        ConfigError::UnknownOutputKind(v) => assert_eq!(v, "elf"),
        other => panic!("wrong error: {:?}", other),
    }
}

#[test]
fn from_args_opt_levels() {
    let mut m = empty_args();
    m.opt_level = Some("0".to_string());
    assert_eq!(Options::from_args(&m).unwrap().opt_level, OptLevel::Off);
    m.opt_level = Some("1".to_string());
    assert_eq!(Options::from_args(&m).unwrap().opt_level, OptLevel::Standard);
    m.opt_level = Some("2".to_string());
    assert_eq!(Options::from_args(&m).unwrap().opt_level, OptLevel::Fast);
    m.opt_level = Some("fast".to_string());
    assert_eq!(Options::from_args(&m).unwrap().opt_level, OptLevel::Fast);
    m.opt_level = Some("3".to_string());
    assert!(matches!(Options::from_args(&m), Err(ConfigError::UnknownOptLevel(_))));
}

#[test]
fn from_args_bad_size_is_an_error() {
    let mut m = empty_args();
    m.guard_size = Some("not a size".to_string());
    let e = Options::from_args(&m).unwrap_err();
    match e {
        ConfigError::InvalidSize(v) => assert_eq!(v, "not a size"),
        other => panic!("wrong error: {:?}", other),
    }
}

#[test]
fn signing_flags_demand_their_keys() {
    let mut m = empty_args();
    m.sign = true;
    assert!(matches!(Options::from_args(&m), Err(ConfigError::MissingSecretKey)));
    m.sk_path = Some("raw:secret.key".to_string());
    let o = Options::from_args(&m).unwrap();
    assert_eq!(o.sk_path.as_deref(), Some("raw:secret.key"));

    let mut m = empty_args();
    m.verify = true;
    assert!(matches!(Options::from_args(&m), Err(ConfigError::MissingPublicKey)));
    m.pk_path = Some("public.key".to_string());
    let o = Options::from_args(&m).unwrap();
    assert_eq!(o.pk_path.as_deref(), Some("public.key"));
}

#[test]
fn exact_reserved_size_overrides_but_keeps_min_max() {
    let mut m = empty_args();
    m.min_reserved_size = Some("1 MiB".to_string());
    m.max_reserved_size = Some("64 MiB".to_string());
    m.reserved_size = Some("16 MiB".to_string());
    let o = Options::from_args(&m).unwrap();

    // The originally supplied bounds stay retrievable.
    assert_eq!(o.min_reserved_size, Some(1 << 20));
    assert_eq!(o.max_reserved_size, Some(64 << 20));
    assert_eq!(o.reserved_size, Some(16 << 20));

    // Downstream, the exact size is authoritative for both bounds.
    let layout = o.heap_layout(&HeapDefaults::default());
    assert_eq!(layout.min_reserved_size, 1 << 20);
    assert_eq!(layout.max_reserved_size, 64 << 20);
    assert_eq!(layout.exact_reserved_size, Some(16 << 20));
    assert_eq!(layout.effective_min_reserved(), 16 << 20);
    assert_eq!(layout.effective_max_reserved(), 16 << 20);
}

#[test]
fn heap_layout_defaults_apply_when_unspecified() {
    let o = Options::from_args(&empty_args()).unwrap();
    let layout = o.heap_layout(&HeapDefaults::default());
    assert_eq!(layout.min_reserved_size, DEFAULT_MIN_RESERVED_SIZE);
    assert_eq!(layout.max_reserved_size, DEFAULT_MAX_RESERVED_SIZE);
    assert_eq!(layout.guard_size, DEFAULT_GUARD_SIZE);
    assert_eq!(layout.exact_reserved_size, None);
    assert_eq!(layout.effective_min_reserved(), DEFAULT_MIN_RESERVED_SIZE);
    assert_eq!(layout.effective_max_reserved(), DEFAULT_MAX_RESERVED_SIZE);
}

#[test]
fn from_args_keeps_paths_and_flags() {
    let mut m = empty_args();
    m.input = vec!["module.wasm".to_string()];
    m.output = Some("module.so".to_string());
    m.bindings = vec!["a.json".to_string(), "b.json".to_string()];
    m.builtins = Some("builtins.bc".to_string());
    m.keygen = true;
    m.count_instructions = true;
    let o = Options::from_args(&m).unwrap();
    assert_eq!(o.input, vec!["module.wasm".to_string()]);
    assert_eq!(o.output, "module.so");
    assert_eq!(o.binding_files, vec!["a.json".to_string(), "b.json".to_string()]);
    assert_eq!(o.builtins_path.as_deref(), Some("builtins.bc"));
    assert!(o.keygen);
    assert!(o.count_instructions);
}

#[test]
fn later_feature_groups_take_precedence() {
    // Groups arrive concatenated in order; the last token naming a feature
    // decides it.
    let feats = vec!["+sse3".to_string(), "+avx".to_string(), "-avx".to_string()];
    let r = cpu_features_from_args(None, &feats).unwrap();
    match r {
        CpuFeatures::Specify(s) => {
            assert!(s.has_sse3);
            assert!(!s.has_avx);
            assert!(!s.has_bmi1);
        }
        other => panic!("wrong mode: {:?}", other),
    }
}

#[test]
fn first_bad_token_is_reported() {
    let feats = vec!["+sse3".to_string(), "oops".to_string(), "also bad".to_string()];
    let e = cpu_features_from_args(None, &feats).unwrap_err();
    match e {
        ConfigError::InvalidFeature(v) => assert_eq!(v, "oops"),
        other => panic!("wrong error: {:?}", other),
    }
}

#[test]
fn humansized_rejects_stray_forms() {
    // Whitespace around a bare count is not a bare decimal byte count.
    assert!(parse_humansized(" 42 ").is_err());
    // A decimal point without a unit is neither form.
    assert!(parse_humansized("1.5").is_err());
    assert!(parse_humansized("").is_err());
}

#[test]
fn humansized_rejects_non_ascii_input() {
    // A multi-byte numeral before the unit: a size parser indexing bytes by
    // character position would trip over it; here it is plainly invalid.
    let e = parse_humansized("\u{0664}B").unwrap_err();
    match e {
        ConfigError::InvalidSize(v) => assert_eq!(v, "\u{0664}B"),
        other => panic!("wrong error: {:?}", other),
    }
    assert!(parse_humansized("\u{00bd} KiB").is_err());

    let mut m = empty_args();
    m.guard_size = Some("\u{0664}B".to_string());
    assert!(matches!(Options::from_args(&m), Err(ConfigError::InvalidSize(_))));
}
