//! Assembly and validation of the compiler configuration.
//!
//! The raw option values handed over by the command line are validated and
//! gathered into one immutable [`Options`] value: output kind, memory-layout
//! sizes, optimization level, CPU feature selection, and signing flags and
//! key paths.

use vstd::prelude::*;
use crate::cpu::{
    cpu_features_from_args, cpu_of_name, first_invalid, resolved_cpu_features, tokens_of,
    tokens_valid, CpuFeatures, TargetCpu,
};
use crate::error::ConfigError;
use crate::sizes::{humansized_value, parse_humansized};
use crate::strutil::str_eq;

verus! {

/// The compiler's output kind.
#[derive(Debug, Clone, Copy, PartialEq, Eq, Structural)]
pub enum CodegenOutput {
    /// Intermediate representation.
    Clif,
    /// A relocatable object.
    Obj,
    /// A shared library.
    SharedObj,
}

/// The optimization level.
#[derive(Debug, Clone, Copy, PartialEq, Eq, Structural)]
pub enum OptLevel {
    /// No optimization.
    Off,
    /// The standard level, the default.
    Standard,
    /// Optimize for speed.
    Fast,
}

impl Default for OptLevel {
    /// The default optimization level is the standard one.
    fn default() -> (r: Self)
        ensures
            r == OptLevel::Standard,
    {
        OptLevel::Standard
    }
}

/// The raw option values as the command line supplies them: strings and
/// flags, not yet validated.
#[derive(Debug)]
pub struct RawArgs {
    pub input: Vec<String>,
    pub output: Option<String>,
    pub emit: Option<String>,
    pub bindings: Vec<String>,
    pub builtins: Option<String>,
    pub min_reserved_size: Option<String>,
    pub max_reserved_size: Option<String>,
    pub reserved_size: Option<String>,
    pub guard_size: Option<String>,
    pub opt_level: Option<String>,
    pub target_cpu: Option<String>,
    pub target_features: Vec<String>,
    pub keygen: bool,
    pub sign: bool,
    pub verify: bool,
    pub pk_path: Option<String>,
    pub sk_path: Option<String>,
    pub count_instructions: bool,
}

/// The validated, immutable compiler configuration.
#[derive(Debug)]
pub struct Options {
    pub output: String,
    pub input: Vec<String>,
    pub codegen: CodegenOutput,
    pub binding_files: Vec<String>,
    pub builtins_path: Option<String>,
    pub min_reserved_size: Option<u64>,
    pub max_reserved_size: Option<u64>,
    pub reserved_size: Option<u64>,
    pub guard_size: Option<u64>,
    pub opt_level: OptLevel,
    pub cpu_features: CpuFeatures,
    pub keygen: bool,
    pub sign: bool,
    pub verify: bool,
    pub pk_path: Option<String>,
    pub sk_path: Option<String>,
    pub count_instructions: bool,
}

/// The output kind selected by an `emit` value: shared library when absent,
/// nothing when unknown.
pub open spec fn emit_kind(e: Option<Seq<char>>) -> Option<CodegenOutput> {
    match e {
        None => Some(CodegenOutput::SharedObj),
        Some(s) => if s == "clif"@ {
            Some(CodegenOutput::Clif)
        } else if s == "obj"@ {
            Some(CodegenOutput::Obj)
        } else if s == "so"@ {
            Some(CodegenOutput::SharedObj)
        } else {
            None
        },
    }
}

/// The optimization level selected by an `opt-level` value: the standard
/// level when absent, nothing when unknown.
pub open spec fn opt_level_kind(e: Option<Seq<char>>) -> Option<OptLevel> {
    match e {
        None => Some(OptLevel::Standard),
        Some(s) => if s == "0"@ {
            Some(OptLevel::Off)
        } else if s == "1"@ {
            Some(OptLevel::Standard)
        } else if s == "2"@ || s == "fast"@ {
            Some(OptLevel::Fast)
        } else {
            None
        },
    }
}

/// An optional size value: absent, a parsed byte count, or nothing when the
/// string does not parse.
pub open spec fn size_opt(e: Option<Seq<char>>) -> Option<Option<u64>> {
    match e {
        None => Some(None),
        Some(s) => match humansized_value(s) {
            Some(n) => Some(Some(n)),
            None => None,
        },
    }
}

/// The preset choice of a `target-cpu` value, when the name is known.
pub open spec fn preset_opt(e: Option<Seq<char>>) -> Option<Option<TargetCpu>> {
    match e {
        None => Some(None),
        Some(s) => match cpu_of_name(s) {
            Some(c) => Some(Some(c)),
            None => None,
        },
    }
}

/// The whole raw option set is valid: output kind, every size, the
/// optimization level, the CPU selection, and the signing key requirements.
pub open spec fn raw_args_valid(m: RawArgs) -> bool {
    &&& emit_kind(m.emit.deep_view()) is Some
    &&& size_opt(m.min_reserved_size.deep_view()) is Some
    &&& size_opt(m.max_reserved_size.deep_view()) is Some
    &&& size_opt(m.reserved_size.deep_view()) is Some
    &&& size_opt(m.guard_size.deep_view()) is Some
    &&& opt_level_kind(m.opt_level.deep_view()) is Some
    &&& preset_opt(m.target_cpu.deep_view()) is Some
    &&& tokens_valid(m.target_features.deep_view())
    &&& !(m.sign && m.sk_path is None)
    &&& !(m.verify && m.pk_path is None)
}

/// Clones a vector of strings, keeping the view.
fn clone_strings(v: &Vec<String>) -> (r: Vec<String>)
    ensures
        r@ == v@,
{
    let r = v.clone();
    proof {
        assert forall|i: int| 0 <= i < v@.len() implies r@[i] == v@[i] by {
            assert(vstd::pervasive::cloned::<String>(v@[i], r@[i]));
        }
        assert(r@ =~= v@);
    }
    r
}

/// Clones an optional string, keeping the view.
fn clone_opt_string(v: &Option<String>) -> (r: Option<String>)
    ensures
        r == v,
{
    match v {
        Some(s) => Some(s.clone()),
        None => None,
    }
}

impl Options {
    /// Validates the raw option values and gathers them into one
    /// configuration value.
    ///
    /// Succeeds exactly when the output kind and optimization level are
    /// drawn from their accepted sets, every given size parses as a byte
    /// count, the CPU preset and every feature-override token are known, a
    /// signing request comes with a secret key path, and a verification
    /// request comes with a public key path. Each failure is reported with
    /// the offending input; the checks run in that order.
    pub fn from_args(m: &RawArgs) -> (r: Result<Options, ConfigError>)
        ensures
            r is Ok <==> raw_args_valid(*m),
            r matches Ok(o) ==> {
                &&& o.output@ == (match m.output {
                    Some(s) => s@,
                    None => "a.out"@,
                })
                &&& o.input@ == m.input@
                &&& o.codegen == emit_kind(m.emit.deep_view()).unwrap()
                &&& o.binding_files@ == m.bindings@
                &&& o.builtins_path == m.builtins
                &&& o.min_reserved_size == size_opt(m.min_reserved_size.deep_view()).unwrap()
                &&& o.max_reserved_size == size_opt(m.max_reserved_size.deep_view()).unwrap()
                &&& o.reserved_size == size_opt(m.reserved_size.deep_view()).unwrap()
                &&& o.guard_size == size_opt(m.guard_size.deep_view()).unwrap()
                &&& o.opt_level == opt_level_kind(m.opt_level.deep_view()).unwrap()
                &&& o.cpu_features == resolved_cpu_features(
                    preset_opt(m.target_cpu.deep_view()).unwrap(),
                    tokens_of(m.target_features.deep_view()),
                )
                &&& o.keygen == m.keygen
                &&& o.sign == m.sign
                &&& o.verify == m.verify
                &&& o.pk_path == m.pk_path
                &&& o.sk_path == m.sk_path
                &&& o.count_instructions == m.count_instructions
            },
            emit_kind(m.emit.deep_view()) is None ==> (r matches Err(
                ConfigError::UnknownOutputKind(v),
            ) && v@ == m.emit.deep_view().unwrap()),
            emit_kind(m.emit.deep_view()) is Some && size_opt(m.min_reserved_size.deep_view())
                is None ==> (r matches Err(ConfigError::InvalidSize(v)) && v@
                == m.min_reserved_size.deep_view().unwrap()),
            emit_kind(m.emit.deep_view()) is Some && size_opt(m.min_reserved_size.deep_view())
                is Some && size_opt(m.max_reserved_size.deep_view()) is None ==> (r matches Err(
                ConfigError::InvalidSize(v),
            ) && v@ == m.max_reserved_size.deep_view().unwrap()),
            emit_kind(m.emit.deep_view()) is Some && size_opt(m.min_reserved_size.deep_view())
                is Some && size_opt(m.max_reserved_size.deep_view()) is Some && size_opt(
                m.reserved_size.deep_view(),
            ) is None ==> (r matches Err(ConfigError::InvalidSize(v)) && v@
                == m.reserved_size.deep_view().unwrap()),
            emit_kind(m.emit.deep_view()) is Some && size_opt(m.min_reserved_size.deep_view())
                is Some && size_opt(m.max_reserved_size.deep_view()) is Some && size_opt(
                m.reserved_size.deep_view(),
            ) is Some && size_opt(m.guard_size.deep_view()) is None ==> (r matches Err(
                ConfigError::InvalidSize(v),
            ) && v@ == m.guard_size.deep_view().unwrap()),
            sizes_and_emit_ok(*m) && opt_level_kind(m.opt_level.deep_view()) is None ==> (
            r matches Err(ConfigError::UnknownOptLevel(v)) && v@
                == m.opt_level.deep_view().unwrap()),
            sizes_and_emit_ok(*m) && opt_level_kind(m.opt_level.deep_view()) is Some && preset_opt(
                m.target_cpu.deep_view(),
            ) is None ==> (r matches Err(ConfigError::UnsupportedCpu(v)) && v@
                == m.target_cpu.deep_view().unwrap()),
            sizes_and_emit_ok(*m) && opt_level_kind(m.opt_level.deep_view()) is Some && preset_opt(
                m.target_cpu.deep_view(),
            ) is Some && !tokens_valid(m.target_features.deep_view()) ==> (r matches Err(
                ConfigError::InvalidFeature(v),
            ) && v@ == m.target_features.deep_view()[first_invalid(m.target_features.deep_view())]),
            cpu_and_before_ok(*m) && m.sign && m.sk_path is None ==> r matches Err(
                ConfigError::MissingSecretKey,
            ),
            cpu_and_before_ok(*m) && !(m.sign && m.sk_path is None) && m.verify && m.pk_path
                is None ==> r matches Err(ConfigError::MissingPublicKey),
    {
        let input = clone_strings(&m.input);
        let output = match &m.output {
            Some(s) => s.clone(),
            None => String::from_str("a.out"),
        };
        let binding_files = clone_strings(&m.bindings);

        let codegen = match &m.emit {
            None => CodegenOutput::SharedObj,
            Some(s) => {
                if str_eq(s.as_str(), "clif") {
                    CodegenOutput::Clif
                } else if str_eq(s.as_str(), "obj") {
                    CodegenOutput::Obj
                } else if str_eq(s.as_str(), "so") {
                    CodegenOutput::SharedObj
                } else {
                    return Err(ConfigError::UnknownOutputKind(s.clone()));
                }
            },
        };

        let builtins_path = clone_opt_string(&m.builtins);

        let min_reserved_size = match &m.min_reserved_size {
            Some(s) => match parse_humansized(s.as_str()) {
                Ok(n) => Some(n),
                Err(e) => {
                    return Err(e);
                },
            },
            None => None,
        };
        let max_reserved_size = match &m.max_reserved_size {
            Some(s) => match parse_humansized(s.as_str()) {
                Ok(n) => Some(n),
                Err(e) => {
                    return Err(e);
                },
            },
            None => None,
        };
        let reserved_size = match &m.reserved_size {
            Some(s) => match parse_humansized(s.as_str()) {
                Ok(n) => Some(n),
                Err(e) => {
                    return Err(e);
                },
            },
            None => None,
        };
        let guard_size = match &m.guard_size {
            Some(s) => match parse_humansized(s.as_str()) {
                Ok(n) => Some(n),
                Err(e) => {
                    return Err(e);
                },
            },
            None => None,
        };

        let opt_level = match &m.opt_level {
            None => OptLevel::Standard,
            Some(s) => {
                if str_eq(s.as_str(), "0") {
                    OptLevel::Off
                } else if str_eq(s.as_str(), "1") {
                    OptLevel::Standard
                } else if str_eq(s.as_str(), "2") || str_eq(s.as_str(), "fast") {
                    OptLevel::Fast
                } else {
                    return Err(ConfigError::UnknownOptLevel(s.clone()));
                }
            },
        };

        let cpu_str: Option<&str> = match &m.target_cpu {
            Some(s) => Some(s.as_str()),
            None => None,
        };
        let cpu_features = match cpu_features_from_args(cpu_str, &m.target_features) {
            Ok(c) => c,
            Err(e) => {
                return Err(e);
            },
        };

        if m.sign && m.sk_path.is_none() {
            return Err(ConfigError::MissingSecretKey);
        }
        if m.verify && m.pk_path.is_none() {
            return Err(ConfigError::MissingPublicKey);
        }

        Ok(
            Options {
                output,
                input,
                codegen,
                binding_files,
                builtins_path,
                min_reserved_size,
                max_reserved_size,
                reserved_size,
                guard_size,
                opt_level,
                cpu_features,
                keygen: m.keygen,
                sign: m.sign,
                verify: m.verify,
                pk_path: clone_opt_string(&m.pk_path),
                sk_path: clone_opt_string(&m.sk_path),
                count_instructions: m.count_instructions,
            },
        )
    }
}

/// The default minimum size of the usable linear memory region, in bytes.
pub const DEFAULT_MIN_RESERVED_SIZE: u64 = 4 * 1024 * 1024;

/// The default maximum size of the usable linear memory region, in bytes.
pub const DEFAULT_MAX_RESERVED_SIZE: u64 = 4 * 1024 * 1024 * 1024;

/// The default size of the linear memory guard region, in bytes.
pub const DEFAULT_GUARD_SIZE: u64 = 4 * 1024 * 1024;

/// The default-settings table for the memory layout: the byte counts used
/// when a size is left unspecified.
#[derive(Debug, Clone, Copy, PartialEq, Eq, Structural)]
pub struct HeapDefaults {
    pub min_reserved_size: u64,
    pub max_reserved_size: u64,
    pub guard_size: u64,
}

impl Default for HeapDefaults {
    /// The stock default table.
    fn default() -> (r: Self)
        ensures
            r.min_reserved_size == DEFAULT_MIN_RESERVED_SIZE,
            r.max_reserved_size == DEFAULT_MAX_RESERVED_SIZE,
            r.guard_size == DEFAULT_GUARD_SIZE,
    {
        HeapDefaults {
            min_reserved_size: DEFAULT_MIN_RESERVED_SIZE,
            max_reserved_size: DEFAULT_MAX_RESERVED_SIZE,
            guard_size: DEFAULT_GUARD_SIZE,
        }
    }
}

/// The resolved memory layout. When an exact reserved size is present it is
/// the effective reserved size, and the minimum and maximum are advisory
/// only — they are retained, not discarded.
#[derive(Debug, Clone, Copy, PartialEq, Eq, Structural)]
pub struct HeapLayout {
    pub min_reserved_size: u64,
    pub max_reserved_size: u64,
    pub exact_reserved_size: Option<u64>,
    pub guard_size: u64,
}

impl HeapLayout {
    /// The reserved size a downstream consumer must treat as the lower
    /// bound: the exact size when one was given, the minimum otherwise.
    pub fn effective_min_reserved(&self) -> (r: u64)
        ensures
            self.exact_reserved_size matches Some(n) ==> r == n,
            self.exact_reserved_size is None ==> r == self.min_reserved_size,
    {
        match self.exact_reserved_size {
            Some(n) => n,
            None => self.min_reserved_size,
        }
    }

    /// The reserved size a downstream consumer must treat as the upper
    /// bound: the exact size when one was given, the maximum otherwise.
    pub fn effective_max_reserved(&self) -> (r: u64)
        ensures
            self.exact_reserved_size matches Some(n) ==> r == n,
            self.exact_reserved_size is None ==> r == self.max_reserved_size,
    {
        match self.exact_reserved_size {
            Some(n) => n,
            None => self.max_reserved_size,
        }
    }
}

impl Options {
    /// Resolves the memory layout from the configured sizes, drawing on the
    /// default table where a size was left unspecified. Whatever minimum and
    /// maximum were supplied (or defaulted) are kept even when an exact
    /// reserved size overrides them for downstream consumers.
    pub fn heap_layout(&self, defaults: &HeapDefaults) -> (r: HeapLayout)
        ensures
            r.min_reserved_size == (match self.min_reserved_size {
                Some(n) => n,
                None => defaults.min_reserved_size,
            }),
            r.max_reserved_size == (match self.max_reserved_size {
                Some(n) => n,
                None => defaults.max_reserved_size,
            }),
            r.exact_reserved_size == self.reserved_size,
            r.guard_size == (match self.guard_size {
                Some(n) => n,
                None => defaults.guard_size,
            }),
    {
        HeapLayout {
            min_reserved_size: match self.min_reserved_size {
                Some(n) => n,
                None => defaults.min_reserved_size,
            },
            max_reserved_size: match self.max_reserved_size {
                Some(n) => n,
                None => defaults.max_reserved_size,
            },
            exact_reserved_size: self.reserved_size,
            guard_size: match self.guard_size {
                Some(n) => n,
                None => defaults.guard_size,
            },
        }
    }
}

/// The output kind and all four size values are valid.
pub open spec fn sizes_and_emit_ok(m: RawArgs) -> bool {
    &&& emit_kind(m.emit.deep_view()) is Some
    &&& size_opt(m.min_reserved_size.deep_view()) is Some
    &&& size_opt(m.max_reserved_size.deep_view()) is Some
    &&& size_opt(m.reserved_size.deep_view()) is Some
    &&& size_opt(m.guard_size.deep_view()) is Some
}

/// Everything up to and including the CPU selection is valid.
pub open spec fn cpu_and_before_ok(m: RawArgs) -> bool {
    &&& sizes_and_emit_ok(m)
    &&& opt_level_kind(m.opt_level.deep_view()) is Some
    &&& preset_opt(m.target_cpu.deep_view()) is Some
    &&& tokens_valid(m.target_features.deep_view())
}

} // verus!
