//! A snapshot of the environment configuration that steers the rewriter.
//!
//! The surrounding program reads the recognized environment variables once and
//! hands the result to the library as this plain record; the library never
//! touches the environment itself.

use vstd::prelude::*;

verus! {

/// Which environment switches and values were present when the shim started.
///
/// A `Some` field means the corresponding variable was set, with its value;
/// a `bool` field records only the presence of a switch, as the original
/// variables are significant by presence alone.
pub struct EnvConfig {
    /// Next-stage C compiler override.
    pub cc_override: Option<String>,
    /// Next-stage C++ compiler override.
    pub cxx_override: Option<String>,
    /// Whether directed-fuzzing parameters should be checked and deduplicated.
    pub check_params: bool,
    /// Path of the distance file for directed fuzzing.
    pub distance_file: Option<String>,
    /// Path of the targets file for directed fuzzing.
    pub targets_file: Option<String>,
    /// Output directory for directed fuzzing.
    pub outdir: Option<String>,
    /// Extra white-space-separated parameters for directed fuzzing.
    pub additional_params: Option<String>,
    /// Hardening switch: stack protector plus fortify definition.
    pub harden: bool,
    /// AddressSanitizer switch.
    pub use_asan: bool,
    /// MemorySanitizer switch.
    pub use_msan: bool,
    /// UndefinedBehaviorSanitizer switch.
    pub use_ubsan: bool,
    /// Suppresses the debug-info and loop-unrolling flags.
    pub dont_optimize: bool,
    /// Requests suppression of built-in string/memory comparison intrinsics.
    pub no_builtin: bool,
}

/// The mathematical shadow of [`EnvConfig`]: every string as a `Seq<char>`.
#[verifier::ext_equal]
pub ghost struct EnvConfigView {
    pub cc_override: Option<Seq<char>>,
    pub cxx_override: Option<Seq<char>>,
    pub check_params: bool,
    pub distance_file: Option<Seq<char>>,
    pub targets_file: Option<Seq<char>>,
    pub outdir: Option<Seq<char>>,
    pub additional_params: Option<Seq<char>>,
    pub harden: bool,
    pub use_asan: bool,
    pub use_msan: bool,
    pub use_ubsan: bool,
    pub dont_optimize: bool,
    pub no_builtin: bool,
}

impl View for EnvConfig {
    type V = EnvConfigView;

    open spec fn view(&self) -> EnvConfigView {
        EnvConfigView {
            cc_override: self.cc_override.deep_view(),
            cxx_override: self.cxx_override.deep_view(),
            check_params: self.check_params,
            distance_file: self.distance_file.deep_view(),
            targets_file: self.targets_file.deep_view(),
            outdir: self.outdir.deep_view(),
            additional_params: self.additional_params.deep_view(),
            harden: self.harden,
            use_asan: self.use_asan,
            use_msan: self.use_msan,
            use_ubsan: self.use_ubsan,
            dont_optimize: self.dont_optimize,
            no_builtin: self.no_builtin,
        }
    }
}

impl EnvConfig {
    /// A configuration with nothing set: no overrides, no directed-fuzzing
    /// parameters, every switch off.
    pub fn all_unset() -> (r: EnvConfig)
        ensures
            r@ == (EnvConfigView {
                cc_override: None,
                cxx_override: None,
                check_params: false,
                distance_file: None,
                targets_file: None,
                outdir: None,
                additional_params: None,
                harden: false,
                use_asan: false,
                use_msan: false,
                use_ubsan: false,
                dont_optimize: false,
                no_builtin: false,
            }),
    {
        EnvConfig {
            cc_override: None,
            cxx_override: None,
            check_params: false,
            distance_file: None,
            targets_file: None,
            outdir: None,
            additional_params: None,
            harden: false,
            use_asan: false,
            use_msan: false,
            use_ubsan: false,
            dont_optimize: false,
            no_builtin: false,
        }
    }
}

} // verus!
