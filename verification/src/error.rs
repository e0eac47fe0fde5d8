//! Error values for configuration assembly and source generation.
//!
//! Configuration errors carry the offending input so that a caller can report
//! it together with the accepted set; source-generation errors name the
//! offending declaration.

use vstd::prelude::*;

verus! {

/// A configuration error: the offending input is retained so the caller can
/// report it.
#[derive(Debug)]
pub enum ConfigError {
    /// The CPU preset name is not one of the fixed preset set.
    UnsupportedCpu(String),
    /// A feature-override token is not a sign followed by a known feature name.
    InvalidFeature(String),
    /// A human-readable size string could not be parsed as a byte count.
    InvalidSize(String),
    /// The output-kind value is not one of the accepted set.
    UnknownOutputKind(String),
    /// The optimization-level value is not one of the accepted set.
    UnknownOptLevel(String),
    /// A signing operation was requested without the secret key it needs.
    MissingSecretKey,
    /// A verification operation was requested without the public key it needs.
    MissingPublicKey,
}

impl ConfigError {
    /// A human-readable description of the error, naming the offending input
    /// and, for closed sets, the accepted values.
    pub fn message(&self) -> (r: String)
        ensures
            self matches ConfigError::UnsupportedCpu(s) ==> r@ == "unsupported CPU: "@ + s@
                + "; expected one of baseline, nehalem, haswell, broadwell, skylake, cannonlake, icelake, znver1"@,
            self matches ConfigError::InvalidFeature(s) ==> r@ == "invalid feature override: "@
                + s@ + "; expected a sign (+ or -) followed by a known feature name"@,
            self matches ConfigError::InvalidSize(s) ==> r@ == "invalid size: "@ + s@,
            self matches ConfigError::UnknownOutputKind(s) ==> r@ == "unknown output kind: "@
                + s@ + "; expected one of clif, obj, so"@,
            self matches ConfigError::UnknownOptLevel(s) ==> r@ == "unknown opt level: "@ + s@
                + "; expected one of 0, 1, 2, fast"@,
            self matches ConfigError::MissingSecretKey ==> r@
                == "signing requested but no secret key path was given"@,
            self matches ConfigError::MissingPublicKey ==> r@
                == "signature verification requested but no public key path was given"@,
    {
        match self {
            ConfigError::UnsupportedCpu(s) => {
                let mut m = String::new();
                m.append("unsupported CPU: ");
                m.append(s.as_str());
                m.append(
                    "; expected one of baseline, nehalem, haswell, broadwell, skylake, cannonlake, icelake, znver1",
                );
                m
            },
            ConfigError::InvalidFeature(s) => {
                let mut m = String::new();
                m.append("invalid feature override: ");
                m.append(s.as_str());
                m.append("; expected a sign (+ or -) followed by a known feature name");
                m
            },
            ConfigError::InvalidSize(s) => {
                let mut m = String::new();
                m.append("invalid size: ");
                m.append(s.as_str());
                m
            },
            ConfigError::UnknownOutputKind(s) => {
                let mut m = String::new();
                m.append("unknown output kind: ");
                m.append(s.as_str());
                m.append("; expected one of clif, obj, so");
                m
            },
            ConfigError::UnknownOptLevel(s) => {
                let mut m = String::new();
                m.append("unknown opt level: ");
                m.append(s.as_str());
                m.append("; expected one of 0, 1, 2, fast");
                m
            },
            ConfigError::MissingSecretKey => String::from_str(
                "signing requested but no secret key path was given",
            ),
            ConfigError::MissingPublicKey => String::from_str(
                "signature verification requested but no public key path was given",
            ),
        }
    }
}

/// A source-generation error: a declaration of the package is malformed.
#[derive(Debug)]
pub enum CodegenError {
    /// The named declaration (or one of its members) is not a valid
    /// identifier in the target source language.
    InvalidName(String),
}

impl CodegenError {
    /// A human-readable description naming the offending declaration.
    pub fn message(&self) -> (r: String)
        ensures
            self matches CodegenError::InvalidName(s) ==> r@
                == "malformed declaration: "@ + s@,
    {
        match self {
            CodegenError::InvalidName(s) => {
                let mut m = String::new();
                m.append("malformed declaration: ");
                m.append(s.as_str());
                m
            },
        }
    }
}

} // verus!
