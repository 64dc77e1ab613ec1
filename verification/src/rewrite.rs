//! The invocation rewriter: the decision core of the compiler shim.
//!
//! Given the original argument vector, the environment configuration and the
//! located artifacts, the rewriter produces the augmented argument vector for
//! the real compiler, or a fatal configuration error.  The intended result is
//! written down first as a chain of specification functions — one per stage of
//! the rewrite — and [`check_edit_params`] is proved to return exactly that.
//!
//! Stages, in order: toolchain selection, instrumentation injection,
//! directed-fuzzing parameter staging from the environment, a single linear
//! pass over the original arguments, and the epilogues (hardening, sanitizers,
//! optimization, builtin suppression, fixed macros, runtime-object linking).

use vstd::prelude::*;

verus! {

use crate::artifacts::{ArtifactSet, ArtifactSetView};
use crate::config::{EnvConfig, EnvConfigView};
use crate::strutil::{
    contains_substr, split_commas_view, split_whitespace_view, cmp_with_group_strings, has_prefix,
    has_suffix, split_on_commas, split_whitespace_tokens, str_contains, str_eq,
};
use vstd::string::{StrSliceExecFns, StringExecFns};

/// A fatal configuration conflict detected during rewriting.  The shim
/// reports it and exits without invoking the compiler.
#[derive(Clone, Copy, Debug, PartialEq, Eq, Structural)]
pub enum RewriteError {
    /// The environment requests AddressSanitizer and MemorySanitizer at once.
    AsanMsanConflict,
    /// The environment requests AddressSanitizer together with hardening.
    AsanHardenConflict,
    /// The environment requests MemorySanitizer together with hardening.
    MsanHardenConflict,
    /// 32-bit mode was requested but the 32-bit runtime object is not on disk.
    MissingRuntime32,
    /// 64-bit mode was requested but the 64-bit runtime object is not on disk.
    MissingRuntime64,
}

impl RewriteError {
    /// The diagnostic the shim prints for this conflict, identifying the
    /// offending settings or flag.
    pub fn message(&self) -> (r: &'static str)
        ensures
            r@ == match *self {
                RewriteError::AsanMsanConflict => "ASan and MSan are mutually exclusive."@,
                RewriteError::AsanHardenConflict => "ASan and AFL_HARDEN are mutually exclusive."@,
                RewriteError::MsanHardenConflict => "MSan and AFL_HARDEN are mutually exclusive."@,
                RewriteError::MissingRuntime32 => "-m32 is not supported by your compiler"@,
                RewriteError::MissingRuntime64 => "-m64 is not supported by your compiler"@,
            },
    {
        match *self {
            RewriteError::AsanMsanConflict => "ASan and MSan are mutually exclusive.",
            RewriteError::AsanHardenConflict => "ASan and AFL_HARDEN are mutually exclusive.",
            RewriteError::MsanHardenConflict => "MSan and AFL_HARDEN are mutually exclusive.",
            RewriteError::MissingRuntime32 => "-m32 is not supported by your compiler",
            RewriteError::MissingRuntime64 => "-m64 is not supported by your compiler",
        }
    }
}

/// The target word width selected by the last `-m32`/`-m64` argument seen.
#[derive(Clone, Copy, Debug, PartialEq, Eq, Structural)]
pub enum BitMode {
    DefaultBits,
    Bits32,
    Bits64,
}

/// Rewriter state after the environment staging stage: the argument vector so
/// far, which directed-fuzzing parameters are already set, and the
/// additional-parameter tokens emitted so far (the duplicate-suppression list).
#[verifier::ext_equal]
pub ghost struct StageState {
    pub out: Seq<Seq<char>>,
    pub dis: bool,
    pub tar: bool,
    pub outd: bool,
    pub copy: Seq<Seq<char>>,
}

/// Rewriter state during and after the linear pass over the original
/// arguments.  Every `-set` flag, once true, never reverts to false.
#[verifier::ext_equal]
pub ghost struct ScanState {
    pub out: Seq<Seq<char>>,
    pub dis: bool,
    pub tar: bool,
    pub outd: bool,
    pub bit: BitMode,
    pub x_set: bool,
    pub linking: bool,
    pub asan: bool,
    pub msan: bool,
    pub ubsan: bool,
    pub fortify: bool,
}

/// Stage 1, toolchain selection: the C++ path when the invoking program name
/// ends with the C++ wrapper name, the C path otherwise; an override from the
/// environment wins over the default compiler name.
pub open spec fn spec_compiler(arg0: Seq<char>, cfg: EnvConfigView) -> Seq<char> {
    if "afl-clang-fast++"@.is_suffix_of(arg0) {
        match cfg.cxx_override {
            Some(s) => s,
            None => "clang++"@,
        }
    } else {
        match cfg.cc_override {
            Some(s) => s,
            None => "clang"@,
        }
    }
}

/// Stages 1 and 2: the compiler name, the flags that load the instrumentation
/// pass, and the unused-argument suppression flag.
pub open spec fn spec_base(arg0: Seq<char>, cfg: EnvConfigView, arts: ArtifactSetView) -> Seq<
    Seq<char>,
> {
    seq![
        spec_compiler(arg0, cfg),
        "-Xclang"@,
        "-load"@,
        "-Xclang"@,
        arts.pass_lib,
        "-Qunused-arguments"@,
    ]
}

/// Stage 3a, distance file from the environment: emitted as an
/// `-mllvm -distance=<value>` pair and marked set.
pub open spec fn stage_dist(st: StageState, v: Option<Seq<char>>) -> StageState {
    match v {
        Some(v) => StageState { out: st.out + seq!["-mllvm"@, "-distance="@ + v], dis: true, ..st },
        None => st,
    }
}

/// Stage 3a, targets file from the environment.
pub open spec fn stage_tar(st: StageState, v: Option<Seq<char>>) -> StageState {
    match v {
        Some(v) => StageState { out: st.out + seq!["-mllvm"@, "-targets="@ + v], tar: true, ..st },
        None => st,
    }
}

/// Stage 3a, output directory from the environment.
pub open spec fn stage_outd(st: StageState, v: Option<Seq<char>>) -> StageState {
    match v {
        Some(v) => StageState { out: st.out + seq!["-mllvm"@, "-outdir="@ + v], outd: true, ..st },
        None => st,
    }
}

/// The rewriter state entering stage 3: stages 1 and 2 emitted, nothing set.
pub open spec fn spec_stage_init(arg0: Seq<char>, cfg: EnvConfigView, arts: ArtifactSetView) -> StageState {
    StageState {
        out: spec_base(arg0, cfg, arts),
        dis: false,
        tar: false,
        outd: false,
        copy: Seq::empty(),
    }
}

/// Stage 3a: each directed-fuzzing parameter present in the environment is
/// emitted as an `-mllvm <name>=<value>` pair and marked set.  Only reached
/// when parameter checking is enabled.
pub open spec fn spec_stage_env(arg0: Seq<char>, cfg: EnvConfigView, arts: ArtifactSetView) -> StageState {
    let st0 = spec_stage_init(arg0, cfg, arts);
    if !cfg.check_params {
        st0
    } else {
        stage_outd(stage_tar(stage_dist(st0, cfg.distance_file), cfg.targets_file), cfg.outdir)
    }
}

/// Stage 3b, one additional-parameter token: a token carrying a
/// directed-fuzzing parameter prefix is dropped when that parameter is
/// already set, and otherwise emitted behind an `-mllvm` marker; every token
/// that is emitted is also recorded for duplicate suppression in stage 4.
pub open spec fn stage_token(st: StageState, tok: Seq<char>) -> StageState {
    if "-distance"@.is_prefix_of(tok) {
        if st.dis {
            st
        } else {
            StageState {
                out: st.out + seq!["-mllvm"@, tok],
                dis: true,
                copy: st.copy.push(tok),
                ..st
            }
        }
    } else if "-targets"@.is_prefix_of(tok) {
        if st.tar {
            st
        } else {
            StageState {
                out: st.out + seq!["-mllvm"@, tok],
                tar: true,
                copy: st.copy.push(tok),
                ..st
            }
        }
    } else if "-outdir"@.is_prefix_of(tok) {
        if st.outd {
            st
        } else {
            StageState {
                out: st.out + seq!["-mllvm"@, tok],
                outd: true,
                copy: st.copy.push(tok),
                ..st
            }
        }
    } else {
        StageState { out: st.out.push(tok), copy: st.copy.push(tok), ..st }
    }
}

/// Stage 3b folded over all additional-parameter tokens, first token first.
pub open spec fn stage_tokens(st: StageState, toks: Seq<Seq<char>>) -> StageState
    decreases toks.len(),
{
    if toks.len() == 0 {
        st
    } else {
        stage_token(stage_tokens(st, toks.drop_last()), toks.last())
    }
}

/// Whether additional parameters were applied: only when checking is on and
/// the additional-parameters variable is present.
pub open spec fn spec_add_set(cfg: EnvConfigView) -> bool {
    cfg.check_params && cfg.additional_params is Some
}

/// All of stage 3: environment parameters, then the additional-parameter
/// token list split on white space.
pub open spec fn spec_staged(arg0: Seq<char>, cfg: EnvConfigView, arts: ArtifactSetView) -> StageState {
    let st = spec_stage_env(arg0, cfg, arts);
    if spec_add_set(cfg) {
        stage_tokens(st, split_whitespace_view(cfg.additional_params.unwrap()))
    } else {
        st
    }
}

/// The comma-separated items behind the sanitizer-selection prefix.
pub open spec fn san_items(arg: Seq<char>) -> Seq<Seq<char>> {
    split_commas_view(arg.subrange("-fsanitize="@.len() as int, arg.len() as int))
}

/// The argument selects AddressSanitizer.
pub open spec fn sets_asan(arg: Seq<char>) -> bool {
    "-fsanitize="@.is_prefix_of(arg) && san_items(arg).contains("address"@)
}

/// The argument selects MemorySanitizer.
pub open spec fn sets_msan(arg: Seq<char>) -> bool {
    "-fsanitize="@.is_prefix_of(arg) && san_items(arg).contains("memory"@)
}

/// The argument selects UndefinedBehaviorSanitizer.
pub open spec fn sets_ubsan(arg: Seq<char>) -> bool {
    "-fsanitize="@.is_prefix_of(arg) && san_items(arg).contains("undefined"@)
}

/// Stage 4, one original argument.  In priority order: a directed-fuzzing
/// parameter already set is dropped as a duplicate (when checking), an unset
/// one gets an `-mllvm` marker; a textual duplicate of an emitted
/// additional-parameter token is dropped; bit-mode, language, linking,
/// sanitizer and fortify signals are recorded; the two no-undefined linker
/// flags are dropped; everything else is copied through unchanged.
pub open spec fn scan_arg(
    check: bool,
    add_set: bool,
    copy: Seq<Seq<char>>,
    st: ScanState,
    arg: Seq<char>,
) -> ScanState {
    if scan_drops_dup(check, st, arg) {
        st
    } else {
        let st1 = scan_prompt(st, arg);
        if check && add_set && copy.contains(arg) {
            st1
        } else {
            scan_keep(scan_flags(st1, arg), arg)
        }
    }
}

/// The argument duplicates an already-set directed-fuzzing parameter and is
/// dropped outright (only under checking).
pub open spec fn scan_drops_dup(check: bool, st: ScanState, arg: Seq<char>) -> bool {
    ||| ("-distance"@.is_prefix_of(arg) && check && st.dis)
    ||| ("-targets"@.is_prefix_of(arg) && check && st.tar)
    ||| ("-outdir"@.is_prefix_of(arg) && check && st.outd)
}

/// An argument carrying an unset directed-fuzzing parameter prefix gets the
/// `-mllvm` marker prepended and its parameter marked set.
pub open spec fn scan_prompt(st: ScanState, arg: Seq<char>) -> ScanState {
    if "-distance"@.is_prefix_of(arg) {
        ScanState { out: st.out.push("-mllvm"@), dis: true, ..st }
    } else if "-targets"@.is_prefix_of(arg) {
        ScanState { out: st.out.push("-mllvm"@), tar: true, ..st }
    } else if "-outdir"@.is_prefix_of(arg) {
        ScanState { out: st.out.push("-mllvm"@), outd: true, ..st }
    } else {
        st
    }
}

/// The bit-mode, language, linking, sanitizer and fortify signals one
/// argument contributes.
pub open spec fn scan_flags(st: ScanState, arg: Seq<char>) -> ScanState {
    ScanState {
        out: st.out,
        dis: st.dis,
        tar: st.tar,
        outd: st.outd,
        bit: if arg == "-m32"@ {
            BitMode::Bits32
        } else if arg == "-m64"@ {
            BitMode::Bits64
        } else {
            st.bit
        },
        x_set: st.x_set || arg == "-x"@,
        linking: st.linking && arg != "-c"@ && arg != "-S"@ && arg != "-E"@ && arg != "-shared"@,
        asan: st.asan || sets_asan(arg),
        msan: st.msan || sets_msan(arg),
        ubsan: st.ubsan || sets_ubsan(arg),
        fortify: st.fortify || contains_substr(arg, "FORTIFY_SOURCE"@),
    }
}

/// The argument is copied through unless it is one of the two linker flags
/// that forbid undefined symbols, which the instrumentation shim cannot obey.
pub open spec fn scan_keep(st: ScanState, arg: Seq<char>) -> ScanState {
    if arg == "-Wl,-z,defs"@ || arg == "-Wl,--no-undefined"@ {
        st
    } else {
        ScanState { out: st.out.push(arg), ..st }
    }
}

/// Stage 4 folded over the original arguments, first argument first.
pub open spec fn scan_args(
    check: bool,
    add_set: bool,
    copy: Seq<Seq<char>>,
    st: ScanState,
    rest: Seq<Seq<char>>,
) -> ScanState
    decreases rest.len(),
{
    if rest.len() == 0 {
        st
    } else {
        scan_arg(check, add_set, copy, scan_args(check, add_set, copy, st, rest.drop_last()), rest.last())
    }
}

/// The scan state at the start of stage 4.  Linking starts presumed true,
/// except for a bare `-v` probe, which autoconf-style configure scripts issue
/// without meaning to link.
pub open spec fn spec_scan_init(stage: StageState, args: Seq<Seq<char>>) -> ScanState {
    ScanState {
        out: stage.out,
        dis: stage.dis,
        tar: stage.tar,
        outd: stage.outd,
        bit: BitMode::DefaultBits,
        x_set: false,
        linking: !(args.len() == 2 && args[1] == "-v"@),
        asan: false,
        msan: false,
        ubsan: false,
        fortify: false,
    }
}

/// Stage 5, hardening epilogue: the stack protector, plus the fortify
/// definition unless an argument already mentioned it.
pub open spec fn tail_harden(cfg: EnvConfigView, st: ScanState) -> Seq<Seq<char>> {
    if cfg.harden {
        if st.fortify {
            seq!["-fstack-protector-all"@]
        } else {
            seq!["-fstack-protector-all"@, "-D_FORTIFY_SOURCE=2"@]
        }
    } else {
        Seq::empty()
    }
}

/// Stage 6, policy conflicts: AddressSanitizer and MemorySanitizer exclude
/// each other and the hardening switch.  Requesting a conflicting pair
/// through the environment is fatal whatever else is present; only the
/// enabling epilogue below depends on what the argument scan selected.
pub open spec fn tail_san_err(cfg: EnvConfigView) -> Option<RewriteError> {
    if cfg.use_asan && cfg.use_msan {
        Some(RewriteError::AsanMsanConflict)
    } else if cfg.use_asan && cfg.harden {
        Some(RewriteError::AsanHardenConflict)
    } else if cfg.use_msan && cfg.harden {
        Some(RewriteError::MsanHardenConflict)
    } else {
        None
    }
}

/// Stage 6, AddressSanitizer/MemorySanitizer epilogue on the conflict-free
/// path: enabling either sanitizer first un-defines the fortify macro.
pub open spec fn tail_san(cfg: EnvConfigView, st: ScanState) -> Seq<Seq<char>> {
    if !st.asan && !st.msan && cfg.use_asan {
        seq!["-U_FORTIFY_SOURCE"@, "-fsanitize=address"@]
    } else if !st.asan && !st.msan && cfg.use_msan {
        seq!["-U_FORTIFY_SOURCE"@, "-fsanitize=memory"@]
    } else {
        Seq::empty()
    }
}

/// Whether AddressSanitizer is active once stage 6 has run.
pub open spec fn asan_after(cfg: EnvConfigView, st: ScanState) -> bool {
    st.asan || (!st.msan && cfg.use_asan)
}

/// Whether MemorySanitizer is active once stage 6 has run.
pub open spec fn msan_after(cfg: EnvConfigView, st: ScanState) -> bool {
    st.msan || (!st.asan && !cfg.use_asan && cfg.use_msan)
}

/// Stage 6, UndefinedBehaviorSanitizer epilogue: independent of the other
/// two; un-defines fortify only when neither of them is active.
pub open spec fn tail_ubsan(cfg: EnvConfigView, st: ScanState) -> Seq<Seq<char>> {
    if !st.ubsan && cfg.use_ubsan {
        if !asan_after(cfg, st) && !msan_after(cfg, st) {
            seq!["-U_FORTIFY_SOURCE"@, "-fsanitize=undefined"@]
        } else {
            seq!["-fsanitize=undefined"@]
        }
    } else {
        Seq::empty()
    }
}

/// Stage 7, optimization epilogue: debug info and loop unrolling, unless
/// switched off.
pub open spec fn tail_opt(cfg: EnvConfigView) -> Seq<Seq<char>> {
    if cfg.dont_optimize {
        Seq::empty()
    } else {
        seq!["-g"@, "-funroll-loops"@]
    }
}

/// Stage 8, builtin-suppression epilogue: the five comparison intrinsics
/// whose instrumentation requires plain calls.
pub open spec fn tail_builtin(cfg: EnvConfigView) -> Seq<Seq<char>> {
    if cfg.no_builtin {
        seq![
            "-fno-builtin-strcmp"@,
            "-fno-builtin-strncmp"@,
            "-fno-builtin-strcasecmp"@,
            "-fno-builtin-strncasecmp"@,
            "-fno-builtin-memcmp"@,
        ]
    } else {
        Seq::empty()
    }
}

/// The persistent-loop macro redefinition, stage 10.  The embedded sentinel
/// string lets a post-link scanner detect that the target invoked the macro;
/// the runtime hook's assembly name carries one more leading underscore on
/// Apple platforms.
pub open spec fn spec_persist_macro(apple: bool) -> Seq<char> {
    if apple {
        "-D__AFL_LOOP(_A)=({ static volatile char *_B __attribute__((used));  _B = (char*)\"##SIG_AFL_PERSISTENT##\"; __attribute__((visibility(\"default\"))) int _L(unsigned int) __asm__(\"___afl_persistent_loop\"); _L(_A); })"@
    } else {
        "-D__AFL_LOOP(_A)=({ static volatile char *_B __attribute__((used));  _B = (char*)\"##SIG_AFL_PERSISTENT##\"; __attribute__((visibility(\"default\"))) int _L(unsigned int) __asm__(\"__afl_persistent_loop\"); _L(_A); })"@
    }
}

/// The deferred-forkserver-initialization macro redefinition, stage 10.
pub open spec fn spec_init_macro(apple: bool) -> Seq<char> {
    if apple {
        "-D__AFL_INIT()=do { static volatile char *_A __attribute__((used));  _A = (char*)\"##SIG_AFL_DEFER_FORKSRV##\"; __attribute__((visibility(\"default\"))) void _I(void) __asm__(\"___afl_manual_init\"); _I(); } while (0)"@
    } else {
        "-D__AFL_INIT()=do { static volatile char *_A __attribute__((used));  _A = (char*)\"##SIG_AFL_DEFER_FORKSRV##\"; __attribute__((visibility(\"default\"))) void _I(void) __asm__(\"__afl_manual_init\"); _I(); } while (0)"@
    }
}

/// Stages 9 and 10: the three fixed feature-detection macros and the two
/// macro redefinitions, always appended.
pub open spec fn spec_macro_defs(apple: bool) -> Seq<Seq<char>> {
    seq![
        "-D__AFL_HAVE_MANUAL_CONTROL=1"@,
        "-D__AFL_COMPILER=1"@,
        "-DFUZZING_BUILD_MODE_UNSAFE_FOR_PRODUCTION=1"@,
        spec_persist_macro(apple),
        spec_init_macro(apple),
    ]
}

/// Stage 11, linking epilogue: on a linking invocation, re-assert language
/// auto-detection if an explicit `-x` was seen, then link exactly one runtime
/// object chosen by bit mode, failing when the requested bit-specific object
/// is not on disk.
pub open spec fn tail_link(
    linking: bool,
    x_set: bool,
    bit: BitMode,
    arts: ArtifactSetView,
    rt32_present: bool,
    rt64_present: bool,
) -> Result<Seq<Seq<char>>, RewriteError> {
    if linking {
        let x = if x_set {
            seq!["-x"@, "none"@]
        } else {
            Seq::empty()
        };
        match bit {
            BitMode::Bits32 => if rt32_present {
                Ok(x.push(arts.runtime_32))
            } else {
                Err(RewriteError::MissingRuntime32)
            },
            BitMode::Bits64 => if rt64_present {
                Ok(x.push(arts.runtime_64))
            } else {
                Err(RewriteError::MissingRuntime64)
            },
            BitMode::DefaultBits => Ok(x.push(arts.runtime_default)),
        }
    } else {
        Ok(Seq::empty())
    }
}

/// Everything the epilogues (stages 5 to 11) append after the argument scan,
/// or the fatal error that stops the rewrite.
pub open spec fn spec_tail(
    st: ScanState,
    cfg: EnvConfigView,
    arts: ArtifactSetView,
    rt32_present: bool,
    rt64_present: bool,
    apple: bool,
) -> Result<Seq<Seq<char>>, RewriteError> {
    match tail_san_err(cfg) {
        Some(e) => Err(e),
        None => match tail_link(st.linking, st.x_set, st.bit, arts, rt32_present, rt64_present) {
            Ok(link) => Ok(
                tail_harden(cfg, st) + tail_san(cfg, st) + tail_ubsan(cfg, st) + tail_opt(cfg)
                    + tail_builtin(cfg) + spec_macro_defs(apple) + link,
            ),
            Err(e) => Err(e),
        },
    }
}

/// The scan state after all stages up to and including the linear pass.
pub open spec fn spec_scan(
    args: Seq<Seq<char>>,
    cfg: EnvConfigView,
    arts: ArtifactSetView,
) -> ScanState
    recommends
        args.len() >= 1,
{
    let staged = spec_staged(args[0], cfg, arts);
    let st0 = spec_scan_init(staged, args);
    scan_args(
        cfg.check_params,
        spec_add_set(cfg),
        staged.copy,
        st0,
        args.subrange(1, args.len() as int),
    )
}

/// The whole rewrite: the augmented argument vector, or the first fatal
/// error in stage order.
pub open spec fn spec_rewrite(
    args: Seq<Seq<char>>,
    cfg: EnvConfigView,
    arts: ArtifactSetView,
    rt32_present: bool,
    rt64_present: bool,
    apple: bool,
) -> Result<Seq<Seq<char>>, RewriteError>
    recommends
        args.len() >= 1,
{
    let st = spec_scan(args, cfg, arts);
    match spec_tail(st, cfg, arts, rt32_present, rt64_present, apple) {
        Ok(t) => Ok(st.out + t),
        Err(e) => Err(e),
    }
}

/// The in-progress rewrite: the new argument vector plus the decision flags
/// that steer inline drops and the end-of-pass epilogues.  Built fresh per
/// invocation, mutated by the stage functions below, then converted into the
/// final vector by [`rewrite_finish`].
pub struct RewriteState {
    /// The new argument vector accumulated so far.
    pub out: Vec<String>,
    /// The distance parameter has been emitted.
    pub dis_set: bool,
    /// The targets parameter has been emitted.
    pub tar_set: bool,
    /// The output-directory parameter has been emitted.
    pub out_set: bool,
    /// The additional-parameters variable was applied.
    pub add_set: bool,
    /// Every additional-parameter token passed through, for duplicate
    /// suppression during the argument scan.
    pub add_copy: Vec<String>,
    /// Last `-m32`/`-m64` seen.
    pub bit: BitMode,
    /// An explicit `-x` language flag was seen.
    pub x_set: bool,
    /// Still presumed to be a linking invocation.
    pub linking: bool,
    /// AddressSanitizer selected by an argument.
    pub asan: bool,
    /// MemorySanitizer selected by an argument.
    pub msan: bool,
    /// UndefinedBehaviorSanitizer selected by an argument.
    pub ubsan: bool,
    /// An argument already mentions the fortify macro.
    pub fortify: bool,
}

impl RewriteState {
    /// The staging-stage shadow of this state.
    pub open spec fn stage_view(&self) -> StageState {
        StageState {
            out: self.out.deep_view(),
            dis: self.dis_set,
            tar: self.tar_set,
            outd: self.out_set,
            copy: self.add_copy.deep_view(),
        }
    }

    /// The scan-stage shadow of this state.
    pub open spec fn scan_view(&self) -> ScanState {
        ScanState {
            out: self.out.deep_view(),
            dis: self.dis_set,
            tar: self.tar_set,
            outd: self.out_set,
            bit: self.bit,
            x_set: self.x_set,
            linking: self.linking,
            asan: self.asan,
            msan: self.msan,
            ubsan: self.ubsan,
            fortify: self.fortify,
        }
    }
}

/// Stages 1 to 3a: selects the toolchain, loads the instrumentation pass and
/// emits the directed-fuzzing parameters present in the environment.
pub fn rewrite_begin(arg0: &String, cfg: &EnvConfig, arts: &ArtifactSet) -> (st: RewriteState)
    ensures
        st.stage_view() == spec_stage_env(arg0@, cfg@, arts@),
        !st.add_set,
        st.bit == BitMode::DefaultBits,
        !st.x_set,
        st.linking,
        !st.asan,
        !st.msan,
        !st.ubsan,
        !st.fortify,
{
    let mut out: Vec<String> = Vec::new();

    // Stage 1: toolchain selection from the invoking program name.
    if has_suffix(arg0.as_str(), "afl-clang-fast++") {
        match &cfg.cxx_override {
            Some(s) => out.push(s.clone()),
            None => out.push("clang++".to_owned()),
        }
    } else {
        match &cfg.cc_override {
            Some(s) => out.push(s.clone()),
            None => out.push("clang".to_owned()),
        }
    }

    // Stage 2: load the instrumentation pass, silence unused-argument noise.
    out.push("-Xclang".to_owned());
    out.push("-load".to_owned());
    out.push("-Xclang".to_owned());
    out.push(arts.pass_lib.clone());
    out.push("-Qunused-arguments".to_owned());
    proof {
        assert(out.deep_view() =~= spec_base(arg0@, cfg@, arts@));
    }

    // Stage 3a: directed-fuzzing parameters from the environment.
    let mut dis_set = false;
    let mut tar_set = false;
    let mut out_set = false;
    let ghost st_init = spec_stage_init(arg0@, cfg@, arts@);
    if cfg.check_params {
        match &cfg.distance_file {
            Some(v) => {
                out.push("-mllvm".to_owned());
                let mut pv = "-distance=".to_owned();
                pv.append(v.as_str());
                out.push(pv);
                dis_set = true;
            },
            None => {},
        }
        proof {
            assert(out.deep_view() =~= stage_dist(st_init, cfg@.distance_file).out);
        }
        match &cfg.targets_file {
            Some(v) => {
                out.push("-mllvm".to_owned());
                let mut pv = "-targets=".to_owned();
                pv.append(v.as_str());
                out.push(pv);
                tar_set = true;
            },
            None => {},
        }
        proof {
            assert(out.deep_view() =~= stage_tar(
                stage_dist(st_init, cfg@.distance_file),
                cfg@.targets_file,
            ).out);
        }
        match &cfg.outdir {
            Some(v) => {
                out.push("-mllvm".to_owned());
                let mut pv = "-outdir=".to_owned();
                pv.append(v.as_str());
                out.push(pv);
                out_set = true;
            },
            None => {},
        }
    }
    let st = RewriteState {
        out,
        dis_set,
        tar_set,
        out_set,
        add_set: false,
        add_copy: Vec::new(),
        bit: BitMode::DefaultBits,
        x_set: false,
        linking: true,
        asan: false,
        msan: false,
        ubsan: false,
        fortify: false,
    };
    proof {
        assert(st.stage_view() =~= spec_stage_env(arg0@, cfg@, arts@));
    }
    st
}

/// Stage 3b: splits the additional-parameters variable on white space,
/// suppresses tokens whose directed-fuzzing parameter is already set, passes
/// the rest through and records them for duplicate suppression in the scan.
#[verifier::loop_isolation(false)]
#[verifier::rlimit(100)]
pub fn rewrite_additional(st: &mut RewriteState, cfg: &EnvConfig)
    requires
        !old(st).add_set,
    ensures
        final(st).stage_view() == (if spec_add_set(cfg@) {
            stage_tokens(
                old(st).stage_view(),
                split_whitespace_view(cfg@.additional_params.unwrap()),
            )
        } else {
            old(st).stage_view()
        }),
        final(st).add_set == spec_add_set(cfg@),
        final(st).bit == old(st).bit,
        final(st).x_set == old(st).x_set,
        final(st).linking == old(st).linking,
        final(st).asan == old(st).asan,
        final(st).msan == old(st).msan,
        final(st).ubsan == old(st).ubsan,
        final(st).fortify == old(st).fortify,
{
    if cfg.check_params {
        match &cfg.additional_params {
            Some(ap) => {
                let ghost st_env = old(st).stage_view();
                let toks = split_whitespace_tokens(ap.as_str());
                let ghost toksv = toks.deep_view();
                let mut j: usize = 0;
                while j < toks.len()
                    invariant
                        j <= toks.len(),
                        st.stage_view() == stage_tokens(st_env, toksv.subrange(0, j as int)),
                        st.bit == old(st).bit,
                        st.x_set == old(st).x_set,
                        st.linking == old(st).linking,
                        st.asan == old(st).asan,
                        st.msan == old(st).msan,
                        st.ubsan == old(st).ubsan,
                        st.fortify == old(st).fortify,
                        st.add_set == old(st).add_set,
                    decreases toks.len() - j,
                {
                    proof {
                        assert(toksv.subrange(0, j as int + 1).drop_last() =~= toksv.subrange(
                            0,
                            j as int,
                        ));
                        assert(toksv.subrange(0, j as int + 1).last() == toksv[j as int]);
                    }
                    let ghost st_pre = stage_tokens(st_env, toksv.subrange(0, j as int));
                    let tok = &toks[j];
                    if has_prefix(tok.as_str(), "-distance") {
                        if !st.dis_set {
                            st.out.push("-mllvm".to_owned());
                            st.dis_set = true;
                            st.out.push(tok.clone());
                            st.add_copy.push(tok.clone());
                            proof {
                                assert(st.stage_view() =~= stage_token(st_pre, toksv[j as int]));
                            }
                        }
                    } else if has_prefix(tok.as_str(), "-targets") {
                        if !st.tar_set {
                            st.out.push("-mllvm".to_owned());
                            st.tar_set = true;
                            st.out.push(tok.clone());
                            st.add_copy.push(tok.clone());
                            proof {
                                assert(st.stage_view() =~= stage_token(st_pre, toksv[j as int]));
                            }
                        }
                    } else if has_prefix(tok.as_str(), "-outdir") {
                        if !st.out_set {
                            st.out.push("-mllvm".to_owned());
                            st.out_set = true;
                            st.out.push(tok.clone());
                            st.add_copy.push(tok.clone());
                            proof {
                                assert(st.stage_view() =~= stage_token(st_pre, toksv[j as int]));
                            }
                        }
                    } else {
                        st.out.push(tok.clone());
                        st.add_copy.push(tok.clone());
                        proof {
                            assert(st.stage_view() =~= stage_token(st_pre, toksv[j as int]));
                        }
                    }
                    j += 1;
                }
                proof {
                    assert(toksv.subrange(0, toksv.len() as int) =~= toksv);
                }
                st.add_set = true;
            },
            None => {},
        }
    }
}

/// Stage 4: the bit-mode, language, linking, sanitizer and fortify signals
/// one argument contributes, exactly as [`scan_flags`] describes them.
#[verifier::rlimit(100)]
pub fn rewrite_scan_flags(st: &mut RewriteState, arg: &String)
    ensures
        final(st).out == old(st).out,
        final(st).dis_set == old(st).dis_set,
        final(st).tar_set == old(st).tar_set,
        final(st).out_set == old(st).out_set,
        final(st).add_set == old(st).add_set,
        final(st).add_copy == old(st).add_copy,
        final(st).bit == (if arg@ == "-m32"@ {
            BitMode::Bits32
        } else if arg@ == "-m64"@ {
            BitMode::Bits64
        } else {
            old(st).bit
        }),
        final(st).x_set == (old(st).x_set || arg@ == "-x"@),
        final(st).linking == (old(st).linking && arg@ != "-c"@ && arg@ != "-S"@ && arg@ != "-E"@
            && arg@ != "-shared"@),
        final(st).asan == (old(st).asan || sets_asan(arg@)),
        final(st).msan == (old(st).msan || sets_msan(arg@)),
        final(st).ubsan == (old(st).ubsan || sets_ubsan(arg@)),
        final(st).fortify == (old(st).fortify || contains_substr(arg@, "FORTIFY_SOURCE"@)),
{
    if str_eq(arg.as_str(), "-m32") {
        st.bit = BitMode::Bits32;
    } else if str_eq(arg.as_str(), "-m64") {
        st.bit = BitMode::Bits64;
    }
    if str_eq(arg.as_str(), "-x") {
        st.x_set = true;
    }
    if str_eq(arg.as_str(), "-c") || str_eq(arg.as_str(), "-S") || str_eq(arg.as_str(), "-E")
        || str_eq(arg.as_str(), "-shared") {
        st.linking = false;
    }
    rewrite_scan_sanitizers(st, arg);
    if str_contains(arg.as_str(), "FORTIFY_SOURCE") {
        st.fortify = true;
    }
}

/// Stage 4: the AddressSanitizer/MemorySanitizer/UndefinedBehaviorSanitizer
/// selections one argument contributes, from the comma-separated items behind
/// the sanitizer-selection prefix.
#[verifier::rlimit(100)]
fn rewrite_scan_sanitizers(st: &mut RewriteState, arg: &String)
    ensures
        final(st).asan == (old(st).asan || sets_asan(arg@)),
        final(st).msan == (old(st).msan || sets_msan(arg@)),
        final(st).ubsan == (old(st).ubsan || sets_ubsan(arg@)),
        final(st).out == old(st).out,
        final(st).dis_set == old(st).dis_set,
        final(st).tar_set == old(st).tar_set,
        final(st).out_set == old(st).out_set,
        final(st).add_set == old(st).add_set,
        final(st).add_copy == old(st).add_copy,
        final(st).bit == old(st).bit,
        final(st).x_set == old(st).x_set,
        final(st).linking == old(st).linking,
        final(st).fortify == old(st).fortify,
{
    if has_prefix(arg.as_str(), "-fsanitize=") {
        let n = arg.as_str().unicode_len();
        let plen = "-fsanitize=".unicode_len();
        let suffix = arg.as_str().substring_char(plen, n);
        let items = split_on_commas(suffix);
        if cmp_with_group_strings("address", &items) {
            st.asan = true;
        }
        if cmp_with_group_strings("memory", &items) {
            st.msan = true;
        }
        if cmp_with_group_strings("undefined", &items) {
            st.ubsan = true;
        }
    }
}

/// Stage 4, one original argument, exactly as [`scan_arg`] describes it.
#[verifier::rlimit(100)]
pub fn rewrite_scan_one(st: &mut RewriteState, arg: &String, check: bool)
    ensures
        final(st).scan_view() == scan_arg(
            check,
            old(st).add_set,
            old(st).add_copy.deep_view(),
            old(st).scan_view(),
            arg@,
        ),
        final(st).add_set == old(st).add_set,
        final(st).add_copy == old(st).add_copy,
{
    let d = has_prefix(arg.as_str(), "-distance");
    let t = has_prefix(arg.as_str(), "-targets");
    let o = has_prefix(arg.as_str(), "-outdir");
    if d && check && st.dis_set {
        // duplicate of a staged parameter: dropped
        proof {
            assert(scan_drops_dup(check, old(st).scan_view(), arg@));
        }
    } else if t && check && st.tar_set {
        proof {
            assert(scan_drops_dup(check, old(st).scan_view(), arg@));
        }
    } else if o && check && st.out_set {
        proof {
            assert(scan_drops_dup(check, old(st).scan_view(), arg@));
        }
    } else {
        if d {
            st.out.push("-mllvm".to_owned());
            st.dis_set = true;
        } else if t {
            st.out.push("-mllvm".to_owned());
            st.tar_set = true;
        } else if o {
            st.out.push("-mllvm".to_owned());
            st.out_set = true;
        }
        proof {
            assert(st.scan_view() =~= scan_prompt(old(st).scan_view(), arg@));
        }
        let ghost st1 = scan_prompt(old(st).scan_view(), arg@);
        if check && st.add_set && cmp_with_group_strings(arg.as_str(), &st.add_copy) {
            // textual duplicate of an emitted additional parameter: dropped
        } else {
            rewrite_scan_flags(st, arg);
            let ghost st2 = scan_flags(st1, arg@);
            if str_eq(arg.as_str(), "-Wl,-z,defs") || str_eq(arg.as_str(), "-Wl,--no-undefined") {
                // incompatible with the instrumentation shim: dropped
            } else {
                st.out.push(arg.clone());
            }
            proof {
                assert(st.scan_view() =~= scan_keep(st2, arg@));
            }
        }
    }
    proof {
        assert(st.scan_view() =~= scan_arg(
            check,
            old(st).add_set,
            old(st).add_copy.deep_view(),
            old(st).scan_view(),
            arg@,
        ));
    }
}

/// Stage 4: the single linear pass over the original arguments, after
/// clearing the linking flag for a bare `-v` probe.
#[verifier::loop_isolation(false)]
pub fn rewrite_scan(st: &mut RewriteState, args: &Vec<String>, cfg: &EnvConfig)
    requires
        args@.len() >= 1,
        old(st).bit == BitMode::DefaultBits,
        !old(st).x_set,
        !old(st).asan,
        !old(st).msan,
        !old(st).ubsan,
        !old(st).fortify,
    ensures
        final(st).scan_view() == scan_args(
            cfg@.check_params,
            old(st).add_set,
            old(st).add_copy.deep_view(),
            spec_scan_init(old(st).stage_view(), args.deep_view()),
            args.deep_view().subrange(1, args.deep_view().len() as int),
        ),
        final(st).add_set == old(st).add_set,
{
    let ghost argsv = args.deep_view();
    if args.len() == 2 && str_eq(args[1].as_str(), "-v") {
        st.linking = false;
    } else {
        st.linking = true;
    }
    let ghost st0 = spec_scan_init(old(st).stage_view(), argsv);
    proof {
        assert(st.scan_view() =~= st0);
    }
    let check = cfg.check_params;
    let mut i: usize = 1;
    while i < args.len()
        invariant
            1 <= i <= args.len(),
            st.scan_view() == scan_args(
                check,
                old(st).add_set,
                old(st).add_copy.deep_view(),
                st0,
                argsv.subrange(1, i as int),
            ),
            st.add_set == old(st).add_set,
            st.add_copy == old(st).add_copy,
        decreases args.len() - i,
    {
        proof {
            assert(argsv.subrange(1, i as int + 1).drop_last() =~= argsv.subrange(1, i as int));
            assert(argsv.subrange(1, i as int + 1).last() == argsv[i as int]);
        }
        rewrite_scan_one(st, &args[i], check);
        i += 1;
    }
    proof {
        assert(argsv.subrange(1, i as int) =~= argsv.subrange(1, argsv.len() as int));
    }
}

/// Stages 5 to 8: the hardening, sanitizer, optimization and builtin
/// epilogues, including the fatal sanitizer policy conflicts.  Leaves the
/// linking-related flags untouched for the final stages.
#[verifier::rlimit(100)]
pub fn rewrite_policies(st: RewriteState, cfg: &EnvConfig) -> (r: Result<
    RewriteState,
    RewriteError,
>)
    ensures
        match r {
            Ok(st2) => {
                &&& tail_san_err(cfg@) is None
                &&& st2.out.deep_view() == st.scan_view().out + tail_harden(cfg@, st.scan_view())
                    + tail_san(cfg@, st.scan_view()) + tail_ubsan(cfg@, st.scan_view()) + tail_opt(
                    cfg@,
                ) + tail_builtin(cfg@)
                &&& st2.bit == st.bit
                &&& st2.x_set == st.x_set
                &&& st2.linking == st.linking
            },
            Err(e) => tail_san_err(cfg@) == Some(e),
        },
{
    let ghost stv = st.scan_view();
    let mut st = st;

    // Stage 5: hardening epilogue.
    if cfg.harden {
        st.out.push("-fstack-protector-all".to_owned());
        if !st.fortify {
            st.out.push("-D_FORTIFY_SOURCE=2".to_owned());
        }
    }
    let ghost acc1 = stv.out + tail_harden(cfg@, stv);
    proof {
        assert(st.out.deep_view() =~= acc1);
    }

    // Stage 6: the sanitizer policy conflicts, fatal whatever the arguments
    // selected; then the enabling epilogue, skipped when an argument already
    // selected a sanitizer.
    if cfg.use_asan && cfg.use_msan {
        return Err(RewriteError::AsanMsanConflict);
    }
    if cfg.use_asan && cfg.harden {
        return Err(RewriteError::AsanHardenConflict);
    }
    if cfg.use_msan && cfg.harden {
        return Err(RewriteError::MsanHardenConflict);
    }
    if !st.asan && !st.msan {
        if cfg.use_asan {
            st.out.push("-U_FORTIFY_SOURCE".to_owned());
            st.out.push("-fsanitize=address".to_owned());
            st.asan = true;
        } else if cfg.use_msan {
            st.out.push("-U_FORTIFY_SOURCE".to_owned());
            st.out.push("-fsanitize=memory".to_owned());
            st.msan = true;
        }
    }
    let ghost acc2 = acc1 + tail_san(cfg@, stv);
    proof {
        assert(tail_san_err(cfg@) is None);
        assert(st.out.deep_view() =~= acc2);
        assert(st.asan == asan_after(cfg@, stv));
        assert(st.msan == msan_after(cfg@, stv));
    }

    if !st.ubsan && cfg.use_ubsan {
        if !st.asan && !st.msan {
            st.out.push("-U_FORTIFY_SOURCE".to_owned());
        }
        st.out.push("-fsanitize=undefined".to_owned());
    }
    let ghost acc3 = acc2 + tail_ubsan(cfg@, stv);
    proof {
        assert(st.out.deep_view() =~= acc3);
    }

    // Stage 7: optimization epilogue.
    if !cfg.dont_optimize {
        st.out.push("-g".to_owned());
        st.out.push("-funroll-loops".to_owned());
    }

    // Stage 8: builtin-suppression epilogue.
    if cfg.no_builtin {
        st.out.push("-fno-builtin-strcmp".to_owned());
        st.out.push("-fno-builtin-strncmp".to_owned());
        st.out.push("-fno-builtin-strcasecmp".to_owned());
        st.out.push("-fno-builtin-strncasecmp".to_owned());
        st.out.push("-fno-builtin-memcmp".to_owned());
    }
    proof {
        assert(st.out.deep_view() =~= acc3 + tail_opt(cfg@) + tail_builtin(cfg@));
    }
    Ok(st)
}

/// Stages 5 to 11: the epilogues.  Consumes the scanned state and returns the
/// final argument vector, or the first fatal error in stage order.
#[verifier::rlimit(100)]
pub fn rewrite_finish(
    st: RewriteState,
    cfg: &EnvConfig,
    arts: &ArtifactSet,
    rt32_present: bool,
    rt64_present: bool,
    apple: bool,
) -> (r: Result<Vec<String>, RewriteError>)
    ensures
        match r {
            Ok(v) => spec_tail(st.scan_view(), cfg@, arts@, rt32_present, rt64_present, apple)
                matches Ok(tl) && v.deep_view() == st.scan_view().out + tl,
            Err(e) => spec_tail(st.scan_view(), cfg@, arts@, rt32_present, rt64_present, apple)
                == Err::<Seq<Seq<char>>, RewriteError>(e),
        },
{
    let ghost stv = st.scan_view();
    let st = match rewrite_policies(st, cfg) {
        Ok(st2) => st2,
        Err(e) => {
            return Err(e);
        },
    };
    let mut out = st.out;

    // Stages 9 and 10: fixed macros and the two sentinel macro redefinitions.
    push_macro_defs(&mut out, apple);

    // Stage 11: linking epilogue.
    match push_link(&mut out, st.linking, st.x_set, st.bit, arts, rt32_present, rt64_present) {
        Ok(()) => {},
        Err(e) => {
            return Err(e);
        },
    }
    proof {
        let link = tail_link(stv.linking, stv.x_set, stv.bit, arts@, rt32_present, rt64_present)
            .unwrap();
        lemma_assemble_tail(
            stv.out,
            tail_harden(cfg@, stv),
            tail_san(cfg@, stv),
            tail_ubsan(cfg@, stv),
            tail_opt(cfg@),
            tail_builtin(cfg@),
            spec_macro_defs(apple),
            link,
        );
    }
    Ok(out)
}

/// Appending the epilogue pieces one after another yields the same vector as
/// appending their concatenation: concatenation of sequences is associative.
proof fn lemma_assemble_tail(
    o: Seq<Seq<char>>,
    a: Seq<Seq<char>>,
    b: Seq<Seq<char>>,
    c: Seq<Seq<char>>,
    d: Seq<Seq<char>>,
    e: Seq<Seq<char>>,
    f: Seq<Seq<char>>,
    g: Seq<Seq<char>>,
)
    ensures
        o + a + b + c + d + e + f + g == o + (a + b + c + d + e + f + g),
{
    assert(o + a + b + c + d + e + f + g =~= o + (a + b + c + d + e + f + g));
}

/// Stages 9 and 10: appends the three fixed feature-detection macros and the
/// two sentinel macro redefinitions.
fn push_macro_defs(out: &mut Vec<String>, apple: bool)
    ensures
        final(out).deep_view() == old(out).deep_view() + spec_macro_defs(apple),
{
    out.push("-D__AFL_HAVE_MANUAL_CONTROL=1".to_owned());
    out.push("-D__AFL_COMPILER=1".to_owned());
    out.push("-DFUZZING_BUILD_MODE_UNSAFE_FOR_PRODUCTION=1".to_owned());
    if apple {
        out.push(
            "-D__AFL_LOOP(_A)=({ static volatile char *_B __attribute__((used));  _B = (char*)\"##SIG_AFL_PERSISTENT##\"; __attribute__((visibility(\"default\"))) int _L(unsigned int) __asm__(\"___afl_persistent_loop\"); _L(_A); })".to_owned(),
        );
        out.push(
            "-D__AFL_INIT()=do { static volatile char *_A __attribute__((used));  _A = (char*)\"##SIG_AFL_DEFER_FORKSRV##\"; __attribute__((visibility(\"default\"))) void _I(void) __asm__(\"___afl_manual_init\"); _I(); } while (0)".to_owned(),
        );
    } else {
        out.push(
            "-D__AFL_LOOP(_A)=({ static volatile char *_B __attribute__((used));  _B = (char*)\"##SIG_AFL_PERSISTENT##\"; __attribute__((visibility(\"default\"))) int _L(unsigned int) __asm__(\"__afl_persistent_loop\"); _L(_A); })".to_owned(),
        );
        out.push(
            "-D__AFL_INIT()=do { static volatile char *_A __attribute__((used));  _A = (char*)\"##SIG_AFL_DEFER_FORKSRV##\"; __attribute__((visibility(\"default\"))) void _I(void) __asm__(\"__afl_manual_init\"); _I(); } while (0)".to_owned(),
        );
    }
    proof {
        assert(out.deep_view() =~= old(out).deep_view() + spec_macro_defs(apple));
    }
}

/// Stage 11: appends the language re-assertion and the runtime object chosen
/// by bit mode, exactly as [`tail_link`] describes for a state with these
/// linking flags.
fn push_link(
    out: &mut Vec<String>,
    linking: bool,
    x_set: bool,
    bit: BitMode,
    arts: &ArtifactSet,
    rt32_present: bool,
    rt64_present: bool,
) -> (r: Result<(), RewriteError>)
    ensures
        match r {
            Ok(()) => tail_link(linking, x_set, bit, arts@, rt32_present, rt64_present) matches Ok(
                l,
            ) && final(out).deep_view() == old(out).deep_view() + l,
            Err(e) => tail_link(linking, x_set, bit, arts@, rt32_present, rt64_present) == Err::<
                Seq<Seq<char>>,
                RewriteError,
            >(e),
        },
{
    if linking {
        if x_set {
            out.push("-x".to_owned());
            out.push("none".to_owned());
        }
        match bit {
            BitMode::Bits32 => {
                if !rt32_present {
                    return Err(RewriteError::MissingRuntime32);
                }
                out.push(arts.runtime_32.clone());
            },
            BitMode::Bits64 => {
                if !rt64_present {
                    return Err(RewriteError::MissingRuntime64);
                }
                out.push(arts.runtime_64.clone());
            },
            BitMode::DefaultBits => {
                out.push(arts.runtime_default.clone());
            },
        }
    }
    proof {
        assert(out.deep_view() =~= old(out).deep_view() + tail_link(
            linking,
            x_set,
            bit,
            arts@,
            rt32_present,
            rt64_present,
        ).unwrap());
    }
    Ok(())
}

/// Checks and edits the original command-line arguments: stages the
/// directed-fuzzing parameters from the environment, removes duplicates of
/// them, records the policy signals, and appends the epilogue flags and the
/// runtime object — returning exactly what [`spec_rewrite`] describes, or its
/// fatal error.
///
/// `args` is the full original argument vector including the program name;
/// `rt32_present`/`rt64_present` say whether the bit-specific runtime objects
/// exist on disk; `apple` selects the symbol-name mangling of the macro
/// redefinitions.
pub fn check_edit_params(
    args: &Vec<String>,
    cfg: &EnvConfig,
    arts: &ArtifactSet,
    rt32_present: bool,
    rt64_present: bool,
    apple: bool,
) -> (r: Result<Vec<String>, RewriteError>)
    requires
        args@.len() >= 1,
    ensures
        match r {
            Ok(v) => spec_rewrite(args.deep_view(), cfg@, arts@, rt32_present, rt64_present, apple)
                == Ok::<Seq<Seq<char>>, RewriteError>(v.deep_view()),
            Err(e) => spec_rewrite(args.deep_view(), cfg@, arts@, rt32_present, rt64_present, apple)
                == Err::<Seq<Seq<char>>, RewriteError>(e),
        },
{
    let ghost argsv = args.deep_view();
    let mut st = rewrite_begin(&args[0], cfg, arts);
    rewrite_additional(&mut st, cfg);
    proof {
        assert(st.stage_view() == spec_staged(argsv[0], cfg@, arts@));
    }
    rewrite_scan(&mut st, args, cfg);
    proof {
        assert(st.scan_view() == spec_scan(argsv, cfg@, arts@));
    }
    rewrite_finish(st, cfg, arts, rt32_present, rt64_present, apple)
}

} // verus!
