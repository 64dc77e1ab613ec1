//! Laws of the rewriter, proved against the specification model.
//!
//! Each public proof function here states one global property of
//! [`crate::rewrite::spec_rewrite`]: pass-through order, duplicate
//! suppression, the fatal sanitizer conflicts, the bit-mode runtime
//! selection, and the linking suppression for version probes and
//! compile-only invocations.

use vstd::prelude::*;

verus! {

use crate::artifacts::ArtifactSetView;
use crate::config::EnvConfigView;
use crate::rewrite::{
    scan_args, scan_arg, scan_drops_dup, scan_flags, scan_prompt, spec_add_set, spec_base,
    spec_init_macro, spec_macro_defs, spec_persist_macro, spec_rewrite, spec_scan, spec_scan_init,
    spec_stage_env, spec_stage_init, spec_staged, spec_tail, stage_dist, stage_tar, stage_tokens,
    tail_builtin, tail_harden, tail_link, tail_opt, tail_san, tail_san_err, tail_ubsan, BitMode,
    RewriteError, ScanState, StageState,
};
use crate::strutil::split_whitespace_view;

/// The argument carries a directed-fuzzing parameter prefix.
pub open spec fn is_fuzz_param_arg(arg: Seq<char>) -> bool {
    ||| "-distance"@.is_prefix_of(arg)
    ||| "-targets"@.is_prefix_of(arg)
    ||| "-outdir"@.is_prefix_of(arg)
}

/// The argument is one of the two linker flags the rewriter always drops.
pub open spec fn is_dropped_linker_flag(arg: Seq<char>) -> bool {
    arg == "-Wl,-z,defs"@ || arg == "-Wl,--no-undefined"@
}

/// The argument clears the maybe-linking flag.
pub open spec fn is_linking_suppressor(arg: Seq<char>) -> bool {
    arg == "-c"@ || arg == "-S"@ || arg == "-E"@ || arg == "-shared"@
}

/// The arguments of `s` that the scan copies through, in order.
pub open spec fn kept_args(s: Seq<Seq<char>>) -> Seq<Seq<char>>
    decreases s.len(),
{
    if s.len() == 0 {
        Seq::empty()
    } else {
        kept_args(s.drop_last()) + (if is_dropped_linker_flag(s.last()) {
            Seq::empty()
        } else {
            seq![s.last()]
        })
    }
}

/// How many elements of `s` carry the prefix `p`.
pub open spec fn count_with_prefix(s: Seq<Seq<char>>, p: Seq<char>) -> nat
    decreases s.len(),
{
    if s.len() == 0 {
        0
    } else {
        count_with_prefix(s.drop_last(), p) + (if p.is_prefix_of(s.last()) {
            1nat
        } else {
            0nat
        })
    }
}

/// Counting prefixed elements distributes over concatenation.
proof fn lemma_count_prefix_app(a: Seq<Seq<char>>, b: Seq<Seq<char>>, p: Seq<char>)
    ensures
        count_with_prefix(a + b, p) == count_with_prefix(a, p) + count_with_prefix(b, p),
    decreases b.len(),
{
    if b.len() == 0 {
        assert(a + b =~= a);
    } else {
        lemma_count_prefix_app(a, b.drop_last(), p);
        assert((a + b).drop_last() =~= a + b.drop_last());
        assert((a + b).last() == b.last());
    }
}

/// A sequence without `p`-prefixed elements counts zero.
proof fn lemma_count_prefix_zero(s: Seq<Seq<char>>, p: Seq<char>)
    requires
        forall|k: int| 0 <= k < s.len() ==> !p.is_prefix_of(#[trigger] s[k]),
    ensures
        count_with_prefix(s, p) == 0,
    decreases s.len(),
{
    if s.len() > 0 {
        assert(forall|k: int|
            0 <= k < s.drop_last().len() ==> #[trigger] s.drop_last()[k] == s[k]);
        lemma_count_prefix_zero(s.drop_last(), p);
        assert(s.last() == s[s.len() - 1]);
    }
}

/// Appending one element adds one to the count exactly when it carries the
/// prefix.
proof fn lemma_count_push(x: Seq<Seq<char>>, a: Seq<char>, p: Seq<char>)
    ensures
        count_with_prefix(x.push(a), p) == count_with_prefix(x, p) + (if p.is_prefix_of(a) {
            1nat
        } else {
            0nat
        }),
{
    assert(x.push(a).drop_last() =~= x);
    assert(x.push(a).last() == a);
}

/// Appending a pair adds the pair's own count.
proof fn lemma_count_pair_app(x: Seq<Seq<char>>, a: Seq<char>, b: Seq<char>, p: Seq<char>)
    ensures
        count_with_prefix(x + seq![a, b], p) == count_with_prefix(x, p) + (if p.is_prefix_of(a) {
            1nat
        } else {
            0nat
        }) + (if p.is_prefix_of(b) {
            1nat
        } else {
            0nat
        }),
{
    assert(x + seq![a, b] =~= x.push(a).push(b));
    lemma_count_push(x, a, p);
    lemma_count_push(x.push(a), b, p);
}

/// A sequence without any directed-fuzzing argument counts zero for each of
/// the three parameter prefixes.
proof fn lemma_count_fuzz_zero(s: Seq<Seq<char>>)
    requires
        forall|k: int| 0 <= k < s.len() ==> !is_fuzz_param_arg(#[trigger] s[k]),
    ensures
        count_with_prefix(s, "-distance"@) == 0,
        count_with_prefix(s, "-targets"@) == 0,
        count_with_prefix(s, "-outdir"@) == 0,
{
    assert(forall|k: int| 0 <= k < s.len() ==> !"-distance"@.is_prefix_of(#[trigger] s[k]));
    assert(forall|k: int| 0 <= k < s.len() ==> !"-targets"@.is_prefix_of(#[trigger] s[k]));
    assert(forall|k: int| 0 <= k < s.len() ==> !"-outdir"@.is_prefix_of(#[trigger] s[k]));
    lemma_count_prefix_zero(s, "-distance"@);
    lemma_count_prefix_zero(s, "-targets"@);
    lemma_count_prefix_zero(s, "-outdir"@);
}

/// Once the maybe-linking flag is cleared, no later argument restores it.
proof fn lemma_scan_linking_stays_false(
    check: bool,
    add_set: bool,
    copy: Seq<Seq<char>>,
    st: ScanState,
    s: Seq<Seq<char>>,
)
    requires
        !st.linking,
    ensures
        !scan_args(check, add_set, copy, st, s).linking,
    decreases s.len(),
{
    if s.len() > 0 {
        lemma_scan_linking_stays_false(check, add_set, copy, st, s.drop_last());
    }
}

/// With checking off, an argument that clears the maybe-linking flag always
/// reaches the flag-recording step, so the flag ends false.
proof fn lemma_scan_suppressor(
    add_set: bool,
    copy: Seq<Seq<char>>,
    st: ScanState,
    s: Seq<Seq<char>>,
)
    requires
        exists|k: int| 0 <= k < s.len() && is_linking_suppressor(#[trigger] s[k]),
    ensures
        !scan_args(false, add_set, copy, st, s).linking,
    decreases s.len(),
{
    let k = choose|k: int| 0 <= k < s.len() && is_linking_suppressor(#[trigger] s[k]);
    if k == s.len() - 1 {
        lemma_scan_linking_stays_false(
            false,
            add_set,
            copy,
            scan_arg(false, add_set, copy, scan_args(false, add_set, copy, st, s.drop_last()), s.last()),
            Seq::empty(),
        );
        assert(!scan_arg(
            false,
            add_set,
            copy,
            scan_args(false, add_set, copy, st, s.drop_last()),
            s.last(),
        ).linking);
    } else {
        assert(s.drop_last()[k] == s[k]);
        lemma_scan_suppressor(add_set, copy, st, s.drop_last());
    }
}

/// With checking off and no suppressor present, the maybe-linking flag keeps
/// its initial value.
proof fn lemma_scan_linking_preserved(
    add_set: bool,
    copy: Seq<Seq<char>>,
    st: ScanState,
    s: Seq<Seq<char>>,
)
    requires
        st.linking,
        forall|k: int| 0 <= k < s.len() ==> !is_linking_suppressor(#[trigger] s[k]),
    ensures
        scan_args(false, add_set, copy, st, s).linking,
    decreases s.len(),
{
    if s.len() > 0 {
        assert(forall|k: int|
            0 <= k < s.drop_last().len() ==> #[trigger] s.drop_last()[k] == s[k]);
        lemma_scan_linking_preserved(add_set, copy, st, s.drop_last());
        assert(s.last() == s[s.len() - 1]);
    }
}

/// With checking off, the last of the `-m32`/`-m64` arguments decides the
/// bit mode; here: `-m32` present and `-m64` absent selects 32-bit mode.
proof fn lemma_scan_bit32(
    add_set: bool,
    copy: Seq<Seq<char>>,
    st: ScanState,
    s: Seq<Seq<char>>,
)
    requires
        s.contains("-m32"@),
        !s.contains("-m64"@),
    ensures
        scan_args(false, add_set, copy, st, s).bit == BitMode::Bits32,
    decreases s.len(),
{
    assert(s.len() > 0);
    assert(forall|k: int| 0 <= k < s.drop_last().len() ==> #[trigger] s.drop_last()[k] == s[k]);
    if s.last() == "-m32"@ {
        assert(scan_args(false, add_set, copy, st, s) == scan_arg(
            false,
            add_set,
            copy,
            scan_args(false, add_set, copy, st, s.drop_last()),
            s.last(),
        ));
    } else {
        let k = choose|k: int| 0 <= k < s.len() && s[k] == "-m32"@;
        assert(k < s.len() - 1);
        assert(s.drop_last()[k] == "-m32"@);
        assert(s.drop_last().contains("-m32"@));
        lemma_scan_bit32(add_set, copy, st, s.drop_last());
        assert(s.last() == s[s.len() - 1]);
        assert(s.last() != "-m64"@);
    }
}

/// As [`lemma_scan_bit32`], for 64-bit mode.
proof fn lemma_scan_bit64(
    add_set: bool,
    copy: Seq<Seq<char>>,
    st: ScanState,
    s: Seq<Seq<char>>,
)
    requires
        s.contains("-m64"@),
        !s.contains("-m32"@),
    ensures
        scan_args(false, add_set, copy, st, s).bit == BitMode::Bits64,
    decreases s.len(),
{
    assert(s.len() > 0);
    assert(forall|k: int| 0 <= k < s.drop_last().len() ==> #[trigger] s.drop_last()[k] == s[k]);
    if s.last() == "-m64"@ {
        assert(scan_args(false, add_set, copy, st, s) == scan_arg(
            false,
            add_set,
            copy,
            scan_args(false, add_set, copy, st, s.drop_last()),
            s.last(),
        ));
    } else {
        let k = choose|k: int| 0 <= k < s.len() && s[k] == "-m64"@;
        assert(k < s.len() - 1);
        assert(s.drop_last()[k] == "-m64"@);
        assert(s.drop_last().contains("-m64"@));
        lemma_scan_bit64(add_set, copy, st, s.drop_last());
        assert(s.last() == s[s.len() - 1]);
        assert(s.last() != "-m32"@);
    }
}

/// With no directed-fuzzing argument present and no argument equal to a
/// recorded additional-parameter token, the scan appends exactly the kept
/// arguments, in their original order.
proof fn lemma_scan_passthrough(
    check: bool,
    add_set: bool,
    copy: Seq<Seq<char>>,
    st: ScanState,
    s: Seq<Seq<char>>,
)
    requires
        forall|k: int| 0 <= k < s.len() ==> !is_fuzz_param_arg(#[trigger] s[k]),
        forall|k: int| 0 <= k < s.len() ==> !copy.contains(#[trigger] s[k]),
    ensures
        scan_args(check, add_set, copy, st, s).out == st.out + kept_args(s),
    decreases s.len(),
{
    if s.len() == 0 {
        assert(st.out + kept_args(s) =~= st.out);
    } else {
        assert(forall|k: int|
            0 <= k < s.drop_last().len() ==> #[trigger] s.drop_last()[k] == s[k]);
        lemma_scan_passthrough(check, add_set, copy, st, s.drop_last());
        assert(s.last() == s[s.len() - 1]);
        let pre = scan_args(check, add_set, copy, st, s.drop_last());
        if is_dropped_linker_flag(s.last()) {
            assert(kept_args(s) =~= kept_args(s.drop_last()));
        } else {
            assert(st.out + kept_args(s) =~= (st.out + kept_args(s.drop_last())).push(s.last()));
        }
    }
}

/// Every token the additional-parameter stage records comes from its input:
/// from the tokens already recorded, or from the token list itself.
proof fn lemma_stage_tokens_copy(st: StageState, toks: Seq<Seq<char>>)
    ensures
        forall|x: Seq<char>| #[trigger]
            stage_tokens(st, toks).copy.contains(x) ==> st.copy.contains(x) || toks.contains(x),
    decreases toks.len(),
{
    if toks.len() > 0 {
        lemma_stage_tokens_copy(st, toks.drop_last());
        let pre = stage_tokens(st, toks.drop_last());
        let post = stage_tokens(st, toks);
        assert forall|x: Seq<char>| #[trigger]
            post.copy.contains(x) implies st.copy.contains(x) || toks.contains(x) by {
            let j = choose|j: int| 0 <= j < post.copy.len() && post.copy[j] == x;
            if j < pre.copy.len() {
                assert(pre.copy.contains(x));
            } else {
                assert(x == toks.last());
                assert(toks[toks.len() - 1] == toks.last());
            }
            if pre.copy.contains(x) && !st.copy.contains(x) {
                let i = choose|i: int|
                    0 <= i < toks.drop_last().len() && toks.drop_last()[i] == x;
                assert(toks[i] == x);
            }
        }
    }
}

/// What the scan keeps is drawn from the input, in order, and never includes
/// either of the two dropped linker flags.
pub proof fn lemma_kept_args_members(s: Seq<Seq<char>>)
    ensures
        forall|x: Seq<char>| #[trigger]
            kept_args(s).contains(x) ==> s.contains(x) && !is_dropped_linker_flag(x),
    decreases s.len(),
{
    if s.len() > 0 {
        lemma_kept_args_members(s.drop_last());
        let pre = kept_args(s.drop_last());
        assert forall|x: Seq<char>| #[trigger]
            kept_args(s).contains(x) implies s.contains(x) && !is_dropped_linker_flag(x) by {
            let j = choose|j: int| 0 <= j < kept_args(s).len() && kept_args(s)[j] == x;
            if j < pre.len() {
                assert(pre.contains(x));
            } else {
                assert(x == s.last());
                assert(s[s.len() - 1] == s.last());
            }
            if pre.contains(x) && s.drop_last().contains(x) {
                let i = choose|i: int| 0 <= i < s.drop_last().len() && s.drop_last()[i] == x;
                assert(s[i] == x);
            }
        }
    }
}

/// Pass-through order: when no argument carries a directed-fuzzing parameter
/// prefix, and — when checking is on — no argument equal to a whole
/// additional-parameter token, every argument the scan keeps appears in the
/// output immediately after the staged prefix, in the same relative order as
/// in the input; the two dropped linker flags are the only arguments removed
/// (see [`lemma_kept_args_members`]).  With checking off the staged prefix
/// is exactly the six-element preamble.
#[verifier::rlimit(100)]
pub proof fn lemma_passthrough_order(
    args: Seq<Seq<char>>,
    cfg: EnvConfigView,
    arts: ArtifactSetView,
    rt32_present: bool,
    rt64_present: bool,
    apple: bool,
)
    requires
        args.len() >= 1,
        forall|k: int| 1 <= k < args.len() ==> !is_fuzz_param_arg(#[trigger] args[k]),
        cfg.check_params && cfg.additional_params is Some ==> forall|k: int|
            1 <= k < args.len() ==> !split_whitespace_view(
                cfg.additional_params.unwrap(),
            ).contains(#[trigger] args[k]),
    ensures
        spec_rewrite(args, cfg, arts, rt32_present, rt64_present, apple) matches Ok(out) ==> {
            let staged_out = spec_staged(args[0], cfg, arts).out;
            let kept = kept_args(args.subrange(1, args.len() as int));
            &&& out.len() >= staged_out.len() + kept.len()
            &&& out.subrange(0, staged_out.len() as int) == staged_out
            &&& out.subrange(
                staged_out.len() as int,
                staged_out.len() as int + kept.len() as int,
            ) == kept
        },
        !cfg.check_params ==> spec_staged(args[0], cfg, arts).out == spec_base(
            args[0],
            cfg,
            arts,
        ),
{
    let rest = args.subrange(1, args.len() as int);
    let staged = spec_staged(args[0], cfg, arts);
    let st0 = spec_scan_init(staged, args);
    assert(forall|k: int| 0 <= k < rest.len() ==> !is_fuzz_param_arg(#[trigger] rest[k])) by {
        assert(forall|k: int| 0 <= k < rest.len() ==> rest[k] == args[k + 1]);
    }
    lemma_rest_not_in_copy(args, cfg, arts);
    lemma_scan_passthrough(cfg.check_params, spec_add_set(cfg), staged.copy, st0, rest);
    let st = spec_scan(args, cfg, arts);
    let kept = kept_args(rest);
    assert(st.out == staged.out + kept);
    match spec_tail(st, cfg, arts, rt32_present, rt64_present, apple) {
        Ok(t) => {
            let out = st.out + t;
            assert(out.subrange(0, staged.out.len() as int) =~= staged.out);
            assert(out.subrange(
                staged.out.len() as int,
                staged.out.len() as int + kept.len() as int,
            ) =~= kept);
        },
        Err(_) => {},
    }
}

/// When no argument equals a whole additional-parameter token, none equals a
/// recorded one either: the recorded tokens are drawn from the token list.
proof fn lemma_rest_not_in_copy(args: Seq<Seq<char>>, cfg: EnvConfigView, arts: ArtifactSetView)
    requires
        args.len() >= 1,
        cfg.check_params && cfg.additional_params is Some ==> forall|k: int|
            1 <= k < args.len() ==> !split_whitespace_view(
                cfg.additional_params.unwrap(),
            ).contains(#[trigger] args[k]),
    ensures
        forall|k: int|
            0 <= k < args.subrange(1, args.len() as int).len() ==> !spec_staged(
                args[0],
                cfg,
                arts,
            ).copy.contains(#[trigger] args.subrange(1, args.len() as int)[k]),
{
    let rest = args.subrange(1, args.len() as int);
    let staged = spec_staged(args[0], cfg, arts);
    if spec_add_set(cfg) {
        let toks = split_whitespace_view(cfg.additional_params.unwrap());
        lemma_stage_tokens_copy(spec_stage_env(args[0], cfg, arts), toks);
        assert(spec_stage_env(args[0], cfg, arts).copy == Seq::<Seq<char>>::empty());
        assert forall|k: int|
            0 <= k < rest.len() implies !staged.copy.contains(#[trigger] rest[k]) by {
            assert(rest[k] == args[k + 1]);
            if staged.copy.contains(rest[k]) {
                assert(Seq::<Seq<char>>::empty().contains(rest[k]) || toks.contains(rest[k]));
            }
        }
    } else {
        assert(staged.copy == Seq::<Seq<char>>::empty());
    }
}

/// Fatal sanitizer conflict: AddressSanitizer and MemorySanitizer requested
/// together through the environment always abort the rewrite before any
/// argument list is finalized, whatever other switches or arguments are
/// present.
pub proof fn lemma_asan_msan_conflict(
    args: Seq<Seq<char>>,
    cfg: EnvConfigView,
    arts: ArtifactSetView,
    rt32_present: bool,
    rt64_present: bool,
    apple: bool,
)
    requires
        args.len() >= 1,
        cfg.use_asan,
        cfg.use_msan,
    ensures
        spec_rewrite(args, cfg, arts, rt32_present, rt64_present, apple) == Err::<
            Seq<Seq<char>>,
            RewriteError,
        >(RewriteError::AsanMsanConflict),
{
}

/// Fatal hardening conflict: AddressSanitizer together with the hardening
/// switch always aborts the rewrite with the error naming that pair, in
/// whatever order the settings were made and whatever arguments are present.
/// (When MemorySanitizer is also requested, the AddressSanitizer and
/// MemorySanitizer conflict is reported first instead.)
pub proof fn lemma_asan_harden_conflict(
    args: Seq<Seq<char>>,
    cfg: EnvConfigView,
    arts: ArtifactSetView,
    rt32_present: bool,
    rt64_present: bool,
    apple: bool,
)
    requires
        args.len() >= 1,
        cfg.use_asan,
        cfg.harden,
        !cfg.use_msan,
    ensures
        spec_rewrite(args, cfg, arts, rt32_present, rt64_present, apple) == Err::<
            Seq<Seq<char>>,
            RewriteError,
        >(RewriteError::AsanHardenConflict),
{
}

/// A successful rewrite that never links ends with the deferred-init macro:
/// no runtime object is appended.
proof fn lemma_no_link_tail(
    st: ScanState,
    cfg: EnvConfigView,
    arts: ArtifactSetView,
    rt32_present: bool,
    rt64_present: bool,
    apple: bool,
)
    requires
        !st.linking,
    ensures
        spec_tail(st, cfg, arts, rt32_present, rt64_present, apple) matches Ok(t) ==> t.len() > 0
            && t.last() == spec_init_macro(apple),
{
    match spec_tail(st, cfg, arts, rt32_present, rt64_present, apple) {
        Ok(t) => {
            let h = tail_harden(cfg, st) + tail_san(cfg, st) + tail_ubsan(cfg, st) + tail_opt(cfg)
                + tail_builtin(cfg);
            assert(t == h + spec_macro_defs(apple) + Seq::<Seq<char>>::empty());
            assert(t.last() == spec_macro_defs(apple)[4]);
        },
        Err(_) => {},
    }
}

/// Bare version probe: for an invocation of exactly `[program, "-v"]` a
/// successful rewrite never appends a runtime object; its last argument is
/// the deferred-init macro.
pub proof fn lemma_bare_version_probe(
    args: Seq<Seq<char>>,
    cfg: EnvConfigView,
    arts: ArtifactSetView,
    rt32_present: bool,
    rt64_present: bool,
    apple: bool,
)
    requires
        args.len() == 2,
        args[1] == "-v"@,
    ensures
        spec_rewrite(args, cfg, arts, rt32_present, rt64_present, apple) matches Ok(out)
            ==> out.len() > 0 && out.last() == spec_init_macro(apple),
{
    let rest = args.subrange(1, args.len() as int);
    let staged = spec_staged(args[0], cfg, arts);
    let st0 = spec_scan_init(staged, args);
    assert(!st0.linking);
    lemma_scan_linking_stays_false(cfg.check_params, spec_add_set(cfg), staged.copy, st0, rest);
    let st = spec_scan(args, cfg, arts);
    lemma_no_link_tail(st, cfg, arts, rt32_present, rt64_present, apple);
    match spec_tail(st, cfg, arts, rt32_present, rt64_present, apple) {
        Ok(t) => {
            assert((st.out + t).last() == t.last());
        },
        Err(_) => {},
    }
}

/// Compile-only invocations never link: with checking off, an input
/// containing `-c` never appends a runtime object; the last argument of a
/// successful rewrite is the deferred-init macro.
pub proof fn lemma_compile_only_never_links(
    args: Seq<Seq<char>>,
    cfg: EnvConfigView,
    arts: ArtifactSetView,
    rt32_present: bool,
    rt64_present: bool,
    apple: bool,
)
    requires
        args.len() >= 1,
        !cfg.check_params,
        args.subrange(1, args.len() as int).contains("-c"@),
    ensures
        spec_rewrite(args, cfg, arts, rt32_present, rt64_present, apple) matches Ok(out)
            ==> out.len() > 0 && out.last() == spec_init_macro(apple),
{
    let rest = args.subrange(1, args.len() as int);
    let staged = spec_staged(args[0], cfg, arts);
    let st0 = spec_scan_init(staged, args);
    let k = choose|k: int| 0 <= k < rest.len() && rest[k] == "-c"@;
    assert(is_linking_suppressor(rest[k]));
    lemma_scan_suppressor(spec_add_set(cfg), staged.copy, st0, rest);
    let st = spec_scan(args, cfg, arts);
    lemma_no_link_tail(st, cfg, arts, rt32_present, rt64_present, apple);
    match spec_tail(st, cfg, arts, rt32_present, rt64_present, apple) {
        Ok(t) => {
            assert((st.out + t).last() == t.last());
        },
        Err(_) => {},
    }
}

/// No sanitizer-policy conflict can arise from this configuration, whatever
/// the arguments selected.
pub open spec fn sanitizer_conflict_free(cfg: EnvConfigView) -> bool {
    &&& !(cfg.use_asan && cfg.use_msan)
    &&& !(cfg.use_asan && cfg.harden)
    &&& !(cfg.use_msan && cfg.harden)
}

/// Missing 32-bit runtime: with checking off, a linking invocation that
/// selects 32-bit mode fails fatally when the 32-bit runtime object is not
/// on disk, whatever else is present.
pub proof fn lemma_m32_missing_runtime(
    args: Seq<Seq<char>>,
    cfg: EnvConfigView,
    arts: ArtifactSetView,
    rt64_present: bool,
    apple: bool,
)
    requires
        args.len() >= 1,
        !cfg.check_params,
        args.subrange(1, args.len() as int).contains("-m32"@),
        !args.subrange(1, args.len() as int).contains("-m64"@),
        forall|k: int|
            1 <= k < args.len() ==> !is_linking_suppressor(#[trigger] args[k]),
        !(args.len() == 2 && args[1] == "-v"@),
        sanitizer_conflict_free(cfg),
    ensures
        spec_rewrite(args, cfg, arts, false, rt64_present, apple) == Err::<
            Seq<Seq<char>>,
            RewriteError,
        >(RewriteError::MissingRuntime32),
{
    let rest = args.subrange(1, args.len() as int);
    let staged = spec_staged(args[0], cfg, arts);
    let st0 = spec_scan_init(staged, args);
    assert(forall|k: int|
        0 <= k < rest.len() ==> !is_linking_suppressor(#[trigger] rest[k])) by {
        assert(forall|k: int| 0 <= k < rest.len() ==> rest[k] == args[k + 1]);
    }
    assert(st0.linking);
    lemma_scan_linking_preserved(spec_add_set(cfg), staged.copy, st0, rest);
    lemma_scan_bit32(spec_add_set(cfg), staged.copy, st0, rest);
    let st = spec_scan(args, cfg, arts);
    assert(tail_san_err(cfg) is None);
}

/// Present 64-bit runtime: with checking off and no conflict, a linking
/// invocation that selects 64-bit mode succeeds when the 64-bit runtime
/// object is on disk, and that object's path is the last argument.
pub proof fn lemma_m64_links_runtime(
    args: Seq<Seq<char>>,
    cfg: EnvConfigView,
    arts: ArtifactSetView,
    rt32_present: bool,
    apple: bool,
)
    requires
        args.len() >= 1,
        !cfg.check_params,
        args.subrange(1, args.len() as int).contains("-m64"@),
        !args.subrange(1, args.len() as int).contains("-m32"@),
        forall|k: int|
            1 <= k < args.len() ==> !is_linking_suppressor(#[trigger] args[k]),
        !(args.len() == 2 && args[1] == "-v"@),
        sanitizer_conflict_free(cfg),
    ensures
        spec_rewrite(args, cfg, arts, rt32_present, true, apple) matches Ok(out) && out.len() > 0
            && out.last() == arts.runtime_64,
{
    let rest = args.subrange(1, args.len() as int);
    let staged = spec_staged(args[0], cfg, arts);
    let st0 = spec_scan_init(staged, args);
    assert(forall|k: int|
        0 <= k < rest.len() ==> !is_linking_suppressor(#[trigger] rest[k])) by {
        assert(forall|k: int| 0 <= k < rest.len() ==> rest[k] == args[k + 1]);
    }
    assert(st0.linking);
    lemma_scan_linking_preserved(spec_add_set(cfg), staged.copy, st0, rest);
    lemma_scan_bit64(spec_add_set(cfg), staged.copy, st0, rest);
    let st = spec_scan(args, cfg, arts);
    assert(tail_san_err(cfg) is None);
    let link = tail_link(st.linking, st.x_set, st.bit, arts, rt32_present, true).unwrap();
    assert(link.last() == arts.runtime_64);
    match spec_tail(st, cfg, arts, rt32_present, true, apple) {
        Ok(t) => {
            assert(t.last() == arts.runtime_64);
            assert((st.out + t).last() == t.last());
        },
        Err(_) => {
            assert(false);
        },
    }
}


/// A string shorter than a prompt of at least two characters, or differing
/// from it in its second character, does not carry it as a prefix.
proof fn lemma_not_prefix(p: Seq<char>, s: Seq<char>)
    requires
        2 <= p.len(),
        s.len() < p.len() || (s.len() >= 2 && s[1] != p[1]),
    ensures
        !p.is_prefix_of(s),
{
    if p.is_prefix_of(s) {
        assert(s.subrange(0, p.len() as int)[1] == s[1]);
    }
}

/// A string shorter than every prompt, or whose second character is none of
/// the prompts' second characters, carries no directed-fuzzing prefix.
proof fn lemma_not_any_prompt(s: Seq<char>)
    requires
        s.len() < 7 || (s.len() >= 2 && s[1] != 'd' && s[1] != 't' && s[1] != 'o'),
    ensures
        !is_fuzz_param_arg(s),
{
    reveal_strlit("-distance");
    reveal_strlit("-targets");
    reveal_strlit("-outdir");
    lemma_not_prefix("-distance"@, s);
    lemma_not_prefix("-targets"@, s);
    lemma_not_prefix("-outdir"@, s);
}

/// No two of the three parameter prompts are prefixes of one string: their
/// second characters differ.
proof fn lemma_prompts_exclusive(tok: Seq<char>)
    ensures
        "-distance"@.is_prefix_of(tok) ==> !"-targets"@.is_prefix_of(tok)
            && !"-outdir"@.is_prefix_of(tok),
        "-targets"@.is_prefix_of(tok) ==> !"-outdir"@.is_prefix_of(tok),
{
    reveal_strlit("-distance");
    reveal_strlit("-targets");
    reveal_strlit("-outdir");
    if "-distance"@.is_prefix_of(tok) {
        assert(tok.subrange(0, 9)[1] == tok[1]);
    }
    if "-targets"@.is_prefix_of(tok) {
        assert(tok.subrange(0, 8)[1] == tok[1]);
    }
    if "-outdir"@.is_prefix_of(tok) {
        assert(tok.subrange(0, 7)[1] == tok[1]);
    }
}

/// An emitted `<prompt>=<value>` argument carries its own prompt as a prefix
/// and neither of the other two.
proof fn lemma_param_value_prefixes(v: Seq<char>)
    ensures
        "-distance"@.is_prefix_of("-distance="@ + v),
        !"-targets"@.is_prefix_of("-distance="@ + v),
        !"-outdir"@.is_prefix_of("-distance="@ + v),
        "-targets"@.is_prefix_of("-targets="@ + v),
        !"-distance"@.is_prefix_of("-targets="@ + v),
        !"-outdir"@.is_prefix_of("-targets="@ + v),
        "-outdir"@.is_prefix_of("-outdir="@ + v),
        !"-distance"@.is_prefix_of("-outdir="@ + v),
        !"-targets"@.is_prefix_of("-outdir="@ + v),
{
    reveal_strlit("-distance");
    reveal_strlit("-distance=");
    reveal_strlit("-targets");
    reveal_strlit("-targets=");
    reveal_strlit("-outdir");
    reveal_strlit("-outdir=");
    assert(("-distance="@ + v).subrange(0, 9) =~= "-distance"@);
    assert(("-targets="@ + v).subrange(0, 8) =~= "-targets"@);
    assert(("-outdir="@ + v).subrange(0, 7) =~= "-outdir"@);
    assert(("-distance="@ + v)[1] == 'd');
    assert(("-targets="@ + v)[1] == 't');
    assert(("-outdir="@ + v)[1] == 'o');
    lemma_not_prefix("-targets"@, "-distance="@ + v);
    lemma_not_prefix("-outdir"@, "-distance="@ + v);
    lemma_not_prefix("-distance"@, "-targets="@ + v);
    lemma_not_prefix("-outdir"@, "-targets="@ + v);
    lemma_not_prefix("-distance"@, "-outdir="@ + v);
    lemma_not_prefix("-targets"@, "-outdir="@ + v);
}

/// None of the fixed flag and macro literals the preamble or the epilogues
/// append carries a directed-fuzzing parameter prefix.
#[verifier::rlimit(100)]
proof fn proof_not_prompt_literals()
    ensures
        !is_fuzz_param_arg("clang"@),
        !is_fuzz_param_arg("clang++"@),
        !is_fuzz_param_arg("-Xclang"@),
        !is_fuzz_param_arg("-load"@),
        !is_fuzz_param_arg("-Qunused-arguments"@),
        !is_fuzz_param_arg("-mllvm"@),
        !is_fuzz_param_arg("-fstack-protector-all"@),
        !is_fuzz_param_arg("-D_FORTIFY_SOURCE=2"@),
        !is_fuzz_param_arg("-U_FORTIFY_SOURCE"@),
        !is_fuzz_param_arg("-fsanitize=address"@),
        !is_fuzz_param_arg("-fsanitize=memory"@),
        !is_fuzz_param_arg("-fsanitize=undefined"@),
        !is_fuzz_param_arg("-g"@),
        !is_fuzz_param_arg("-funroll-loops"@),
        !is_fuzz_param_arg("-fno-builtin-strcmp"@),
        !is_fuzz_param_arg("-fno-builtin-strncmp"@),
        !is_fuzz_param_arg("-fno-builtin-strcasecmp"@),
        !is_fuzz_param_arg("-fno-builtin-strncasecmp"@),
        !is_fuzz_param_arg("-fno-builtin-memcmp"@),
        !is_fuzz_param_arg("-D__AFL_HAVE_MANUAL_CONTROL=1"@),
        !is_fuzz_param_arg("-D__AFL_COMPILER=1"@),
        !is_fuzz_param_arg("-DFUZZING_BUILD_MODE_UNSAFE_FOR_PRODUCTION=1"@),
        !is_fuzz_param_arg("-x"@),
        !is_fuzz_param_arg("none"@),
        !is_fuzz_param_arg(spec_persist_macro(true)),
        !is_fuzz_param_arg(spec_persist_macro(false)),
        !is_fuzz_param_arg(spec_init_macro(true)),
        !is_fuzz_param_arg(spec_init_macro(false)),
{
    reveal_strlit("clang");
    reveal_strlit("clang++");
    reveal_strlit("-Xclang");
    reveal_strlit("-load");
    reveal_strlit("-Qunused-arguments");
    reveal_strlit("-mllvm");
    reveal_strlit("-fstack-protector-all");
    reveal_strlit("-D_FORTIFY_SOURCE=2");
    reveal_strlit("-U_FORTIFY_SOURCE");
    reveal_strlit("-fsanitize=address");
    reveal_strlit("-fsanitize=memory");
    reveal_strlit("-fsanitize=undefined");
    reveal_strlit("-g");
    reveal_strlit("-funroll-loops");
    reveal_strlit("-fno-builtin-strcmp");
    reveal_strlit("-fno-builtin-strncmp");
    reveal_strlit("-fno-builtin-strcasecmp");
    reveal_strlit("-fno-builtin-strncasecmp");
    reveal_strlit("-fno-builtin-memcmp");
    reveal_strlit("-D__AFL_HAVE_MANUAL_CONTROL=1");
    reveal_strlit("-D__AFL_COMPILER=1");
    reveal_strlit("-DFUZZING_BUILD_MODE_UNSAFE_FOR_PRODUCTION=1");
    reveal_strlit("-x");
    reveal_strlit("none");
    reveal_strlit(
        "-D__AFL_LOOP(_A)=({ static volatile char *_B __attribute__((used));  _B = (char*)\"##SIG_AFL_PERSISTENT##\"; __attribute__((visibility(\"default\"))) int _L(unsigned int) __asm__(\"___afl_persistent_loop\"); _L(_A); })",
    );
    reveal_strlit(
        "-D__AFL_LOOP(_A)=({ static volatile char *_B __attribute__((used));  _B = (char*)\"##SIG_AFL_PERSISTENT##\"; __attribute__((visibility(\"default\"))) int _L(unsigned int) __asm__(\"__afl_persistent_loop\"); _L(_A); })",
    );
    reveal_strlit(
        "-D__AFL_INIT()=do { static volatile char *_A __attribute__((used));  _A = (char*)\"##SIG_AFL_DEFER_FORKSRV##\"; __attribute__((visibility(\"default\"))) void _I(void) __asm__(\"___afl_manual_init\"); _I(); } while (0)",
    );
    reveal_strlit(
        "-D__AFL_INIT()=do { static volatile char *_A __attribute__((used));  _A = (char*)\"##SIG_AFL_DEFER_FORKSRV##\"; __attribute__((visibility(\"default\"))) void _I(void) __asm__(\"__afl_manual_init\"); _I(); } while (0)",
    );
    lemma_not_any_prompt("clang"@);
    lemma_not_any_prompt("clang++"@);
    lemma_not_any_prompt("-Xclang"@);
    lemma_not_any_prompt("-load"@);
    lemma_not_any_prompt("-Qunused-arguments"@);
    lemma_not_any_prompt("-mllvm"@);
    lemma_not_any_prompt("-fstack-protector-all"@);
    lemma_not_any_prompt("-D_FORTIFY_SOURCE=2"@);
    lemma_not_any_prompt("-U_FORTIFY_SOURCE"@);
    lemma_not_any_prompt("-fsanitize=address"@);
    lemma_not_any_prompt("-fsanitize=memory"@);
    lemma_not_any_prompt("-fsanitize=undefined"@);
    lemma_not_any_prompt("-g"@);
    lemma_not_any_prompt("-funroll-loops"@);
    lemma_not_any_prompt("-fno-builtin-strcmp"@);
    lemma_not_any_prompt("-fno-builtin-strncmp"@);
    lemma_not_any_prompt("-fno-builtin-strcasecmp"@);
    lemma_not_any_prompt("-fno-builtin-strncasecmp"@);
    lemma_not_any_prompt("-fno-builtin-memcmp"@);
    lemma_not_any_prompt("-D__AFL_HAVE_MANUAL_CONTROL=1"@);
    lemma_not_any_prompt("-D__AFL_COMPILER=1"@);
    lemma_not_any_prompt("-DFUZZING_BUILD_MODE_UNSAFE_FOR_PRODUCTION=1"@);
    lemma_not_any_prompt("-x"@);
    lemma_not_any_prompt("none"@);
    lemma_not_any_prompt(spec_persist_macro(true));
    lemma_not_any_prompt(spec_persist_macro(false));
    lemma_not_any_prompt(spec_init_macro(true));
    lemma_not_any_prompt(spec_init_macro(false));
}

/// The six-element preamble contains no directed-fuzzing argument.
proof fn lemma_base_counts(arg0: Seq<char>, cfg: EnvConfigView, arts: ArtifactSetView)
    requires
        cfg.cc_override is Some ==> !is_fuzz_param_arg(cfg.cc_override.unwrap()),
        cfg.cxx_override is Some ==> !is_fuzz_param_arg(cfg.cxx_override.unwrap()),
        !is_fuzz_param_arg(arts.pass_lib),
    ensures
        spec_base(arg0, cfg, arts).len() == 6,
        count_with_prefix(spec_base(arg0, cfg, arts), "-distance"@) == 0,
        count_with_prefix(spec_base(arg0, cfg, arts), "-targets"@) == 0,
        count_with_prefix(spec_base(arg0, cfg, arts), "-outdir"@) == 0,
{
    let b = spec_base(arg0, cfg, arts);
    proof_not_prompt_literals();
    assert(!is_fuzz_param_arg(b[0]));
    assert(forall|k: int| 0 <= k < b.len() ==> !is_fuzz_param_arg(#[trigger] b[k]));
    lemma_count_fuzz_zero(b);
}

/// The environment staging stage emits, for each parameter present, exactly
/// one argument carrying that parameter's prefix — the value of its
/// `-mllvm` pair — at a fixed position after the preamble, and marks the
/// parameter set; parameters that are absent stay unset and uncounted.
#[verifier::rlimit(100)]
proof fn lemma_stage_env_params(arg0: Seq<char>, cfg: EnvConfigView, arts: ArtifactSetView)
    requires
        cfg.check_params,
        cfg.cc_override is Some ==> !is_fuzz_param_arg(cfg.cc_override.unwrap()),
        cfg.cxx_override is Some ==> !is_fuzz_param_arg(cfg.cxx_override.unwrap()),
        !is_fuzz_param_arg(arts.pass_lib),
    ensures
        ({
            let st = spec_stage_env(arg0, cfg, arts);
            let d: int = if cfg.distance_file is Some { 2int } else { 0int };
            let t: int = if cfg.targets_file is Some { 2int } else { 0int };
            let o: int = if cfg.outdir is Some { 2int } else { 0int };
            &&& st.dis == (cfg.distance_file is Some)
            &&& st.tar == (cfg.targets_file is Some)
            &&& st.outd == (cfg.outdir is Some)
            &&& st.out.len() == 6 + d + t + o
            &&& count_with_prefix(st.out, "-distance"@) == d / 2
            &&& count_with_prefix(st.out, "-targets"@) == t / 2
            &&& count_with_prefix(st.out, "-outdir"@) == o / 2
            &&& (cfg.distance_file is Some ==> st.out[6] == "-mllvm"@ && st.out[7] == "-distance="@
                + cfg.distance_file.unwrap())
            &&& (cfg.targets_file is Some ==> st.out[6 + d] == "-mllvm"@ && st.out[7 + d]
                == "-targets="@ + cfg.targets_file.unwrap())
            &&& (cfg.outdir is Some ==> st.out[6 + d + t] == "-mllvm"@ && st.out[7 + d + t]
                == "-outdir="@ + cfg.outdir.unwrap())
        }),
{
    proof_not_prompt_literals();
    lemma_base_counts(arg0, cfg, arts);
    let st0 = spec_stage_init(arg0, cfg, arts);
    let st1 = stage_dist(st0, cfg.distance_file);
    let st2 = stage_tar(st1, cfg.targets_file);
    match cfg.distance_file {
        Some(v) => {
            lemma_param_value_prefixes(v);
            lemma_count_pair_app(st0.out, "-mllvm"@, "-distance="@ + v, "-distance"@);
            lemma_count_pair_app(st0.out, "-mllvm"@, "-distance="@ + v, "-targets"@);
            lemma_count_pair_app(st0.out, "-mllvm"@, "-distance="@ + v, "-outdir"@);
        },
        None => {},
    }
    match cfg.targets_file {
        Some(v) => {
            lemma_param_value_prefixes(v);
            lemma_count_pair_app(st1.out, "-mllvm"@, "-targets="@ + v, "-distance"@);
            lemma_count_pair_app(st1.out, "-mllvm"@, "-targets="@ + v, "-targets"@);
            lemma_count_pair_app(st1.out, "-mllvm"@, "-targets="@ + v, "-outdir"@);
        },
        None => {},
    }
    match cfg.outdir {
        Some(v) => {
            lemma_param_value_prefixes(v);
            lemma_count_pair_app(st2.out, "-mllvm"@, "-outdir="@ + v, "-distance"@);
            lemma_count_pair_app(st2.out, "-mllvm"@, "-outdir="@ + v, "-targets"@);
            lemma_count_pair_app(st2.out, "-mllvm"@, "-outdir="@ + v, "-outdir"@);
        },
        None => {},
    }
}

/// Once a directed-fuzzing parameter is set, the additional-parameter stage
/// emits no further argument carrying its prefix and leaves the earlier
/// output, position for position, in place.
#[verifier::rlimit(100)]
proof fn lemma_stage_tokens_counts(st: StageState, toks: Seq<Seq<char>>)
    ensures
        ({
            let r = stage_tokens(st, toks);
            &&& r.out.len() >= st.out.len()
            &&& (forall|i: int| 0 <= i < st.out.len() ==> #[trigger] r.out[i] == st.out[i])
            &&& (st.dis ==> r.dis && count_with_prefix(r.out, "-distance"@) == count_with_prefix(
                st.out,
                "-distance"@,
            ))
            &&& (st.tar ==> r.tar && count_with_prefix(r.out, "-targets"@) == count_with_prefix(
                st.out,
                "-targets"@,
            ))
            &&& (st.outd ==> r.outd && count_with_prefix(r.out, "-outdir"@) == count_with_prefix(
                st.out,
                "-outdir"@,
            ))
        }),
    decreases toks.len(),
{
    if toks.len() > 0 {
        lemma_stage_tokens_counts(st, toks.drop_last());
        let pre = stage_tokens(st, toks.drop_last());
        let tok = toks.last();
        proof_not_prompt_literals();
        lemma_prompts_exclusive(tok);
        if "-distance"@.is_prefix_of(tok) && !pre.dis {
            lemma_count_pair_app(pre.out, "-mllvm"@, tok, "-targets"@);
            lemma_count_pair_app(pre.out, "-mllvm"@, tok, "-outdir"@);
        } else if !"-distance"@.is_prefix_of(tok) && "-targets"@.is_prefix_of(tok) && !pre.tar {
            lemma_count_pair_app(pre.out, "-mllvm"@, tok, "-distance"@);
            lemma_count_pair_app(pre.out, "-mllvm"@, tok, "-outdir"@);
        } else if !"-distance"@.is_prefix_of(tok) && !"-targets"@.is_prefix_of(tok)
            && "-outdir"@.is_prefix_of(tok) && !pre.outd {
            lemma_count_pair_app(pre.out, "-mllvm"@, tok, "-distance"@);
            lemma_count_pair_app(pre.out, "-mllvm"@, tok, "-targets"@);
        } else if !is_fuzz_param_arg(tok) {
            lemma_count_push(pre.out, tok, "-distance"@);
            lemma_count_push(pre.out, tok, "-targets"@);
            lemma_count_push(pre.out, tok, "-outdir"@);
        }
    }
}

/// Once a directed-fuzzing parameter is set, the argument scan under
/// checking drops every argument carrying its prefix and emits no new one,
/// leaving the earlier output, position for position, in place.
#[verifier::rlimit(100)]
proof fn lemma_scan_dedup_counts(
    add_set: bool,
    copy: Seq<Seq<char>>,
    st: ScanState,
    s: Seq<Seq<char>>,
)
    ensures
        ({
            let r = scan_args(true, add_set, copy, st, s);
            &&& r.out.len() >= st.out.len()
            &&& (forall|i: int| 0 <= i < st.out.len() ==> #[trigger] r.out[i] == st.out[i])
            &&& (st.dis ==> r.dis && count_with_prefix(r.out, "-distance"@) == count_with_prefix(
                st.out,
                "-distance"@,
            ))
            &&& (st.tar ==> r.tar && count_with_prefix(r.out, "-targets"@) == count_with_prefix(
                st.out,
                "-targets"@,
            ))
            &&& (st.outd ==> r.outd && count_with_prefix(r.out, "-outdir"@) == count_with_prefix(
                st.out,
                "-outdir"@,
            ))
        }),
    decreases s.len(),
{
    if s.len() > 0 {
        lemma_scan_dedup_counts(add_set, copy, st, s.drop_last());
        let pre = scan_args(true, add_set, copy, st, s.drop_last());
        let arg = s.last();
        let post = scan_arg(true, add_set, copy, pre, arg);
        proof_not_prompt_literals();
        lemma_prompts_exclusive(arg);
        if scan_drops_dup(true, pre, arg) {
        } else {
            let st1 = scan_prompt(pre, arg);
            assert(st1.out == pre.out || st1.out == pre.out.push("-mllvm"@));
            if st1.out == pre.out.push("-mllvm"@) {
                lemma_count_push(pre.out, "-mllvm"@, "-distance"@);
                lemma_count_push(pre.out, "-mllvm"@, "-targets"@);
                lemma_count_push(pre.out, "-mllvm"@, "-outdir"@);
            }
            if !(true && add_set && copy.contains(arg)) {
                let st2 = scan_flags(st1, arg);
                assert(post.out == st2.out || post.out == st2.out.push(arg));
                if post.out == st2.out.push(arg) {
                    lemma_count_push(st2.out, arg, "-distance"@);
                    lemma_count_push(st2.out, arg, "-targets"@);
                    lemma_count_push(st2.out, arg, "-outdir"@);
                }
            }
        }
    }
}

/// A successful epilogue appends no directed-fuzzing argument.
#[verifier::rlimit(100)]
proof fn lemma_tail_counts(
    st: ScanState,
    cfg: EnvConfigView,
    arts: ArtifactSetView,
    rt32_present: bool,
    rt64_present: bool,
    apple: bool,
)
    requires
        !is_fuzz_param_arg(arts.runtime_default),
        !is_fuzz_param_arg(arts.runtime_32),
        !is_fuzz_param_arg(arts.runtime_64),
    ensures
        spec_tail(st, cfg, arts, rt32_present, rt64_present, apple) matches Ok(t) ==> {
            &&& count_with_prefix(t, "-distance"@) == 0
            &&& count_with_prefix(t, "-targets"@) == 0
            &&& count_with_prefix(t, "-outdir"@) == 0
        },
{
    proof_not_prompt_literals();
    let h = tail_harden(cfg, st);
    assert(forall|k: int| 0 <= k < h.len() ==> !is_fuzz_param_arg(#[trigger] h[k]));
    lemma_count_fuzz_zero(h);
    let sa = tail_san(cfg, st);
    assert(forall|k: int| 0 <= k < sa.len() ==> !is_fuzz_param_arg(#[trigger] sa[k]));
    lemma_count_fuzz_zero(sa);
    let ub = tail_ubsan(cfg, st);
    assert(forall|k: int| 0 <= k < ub.len() ==> !is_fuzz_param_arg(#[trigger] ub[k]));
    lemma_count_fuzz_zero(ub);
    let op = tail_opt(cfg);
    assert(forall|k: int| 0 <= k < op.len() ==> !is_fuzz_param_arg(#[trigger] op[k]));
    lemma_count_fuzz_zero(op);
    let bu = tail_builtin(cfg);
    assert(forall|k: int| 0 <= k < bu.len() ==> !is_fuzz_param_arg(#[trigger] bu[k]));
    lemma_count_fuzz_zero(bu);
    let md = spec_macro_defs(apple);
    assert(forall|k: int| 0 <= k < md.len() ==> !is_fuzz_param_arg(#[trigger] md[k]));
    lemma_count_fuzz_zero(md);
    match tail_link(st.linking, st.x_set, st.bit, arts, rt32_present, rt64_present) {
        Ok(l) => {
            assert(forall|k: int| 0 <= k < l.len() ==> !is_fuzz_param_arg(#[trigger] l[k]));
            lemma_count_fuzz_zero(l);
            lemma_count_prefix_app(h, sa, "-distance"@);
            lemma_count_prefix_app(h + sa, ub, "-distance"@);
            lemma_count_prefix_app(h + sa + ub, op, "-distance"@);
            lemma_count_prefix_app(h + sa + ub + op, bu, "-distance"@);
            lemma_count_prefix_app(h + sa + ub + op + bu, md, "-distance"@);
            lemma_count_prefix_app(h + sa + ub + op + bu + md, l, "-distance"@);
            lemma_count_prefix_app(h, sa, "-targets"@);
            lemma_count_prefix_app(h + sa, ub, "-targets"@);
            lemma_count_prefix_app(h + sa + ub, op, "-targets"@);
            lemma_count_prefix_app(h + sa + ub + op, bu, "-targets"@);
            lemma_count_prefix_app(h + sa + ub + op + bu, md, "-targets"@);
            lemma_count_prefix_app(h + sa + ub + op + bu + md, l, "-targets"@);
            lemma_count_prefix_app(h, sa, "-outdir"@);
            lemma_count_prefix_app(h + sa, ub, "-outdir"@);
            lemma_count_prefix_app(h + sa + ub, op, "-outdir"@);
            lemma_count_prefix_app(h + sa + ub + op, bu, "-outdir"@);
            lemma_count_prefix_app(h + sa + ub + op + bu, md, "-outdir"@);
            lemma_count_prefix_app(h + sa + ub + op + bu + md, l, "-outdir"@);
        },
        Err(_) => {},
    }
}

/// The three dedup laws share this path sanity: neither the compiler
/// overrides nor the artifact paths are themselves directed-fuzzing
/// arguments, as file paths and compiler names never are.
pub open spec fn paths_are_not_params(cfg: EnvConfigView, arts: ArtifactSetView) -> bool {
    &&& (cfg.cc_override is Some ==> !is_fuzz_param_arg(cfg.cc_override.unwrap()))
    &&& (cfg.cxx_override is Some ==> !is_fuzz_param_arg(cfg.cxx_override.unwrap()))
    &&& !is_fuzz_param_arg(arts.pass_lib)
    &&& !is_fuzz_param_arg(arts.runtime_default)
    &&& !is_fuzz_param_arg(arts.runtime_32)
    &&& !is_fuzz_param_arg(arts.runtime_64)
}

/// Duplicate suppression, distance: when the distance file is supplied
/// through the environment and checking is on, a successful rewrite emits
/// exactly one distance-carrying argument — the `-mllvm -distance=<value>`
/// pair staged directly after the preamble — however often the same
/// parameter also appears among the original arguments or the additional
/// parameters.
#[verifier::rlimit(100)]
pub proof fn lemma_distance_param_deduplicated(
    args: Seq<Seq<char>>,
    cfg: EnvConfigView,
    arts: ArtifactSetView,
    rt32_present: bool,
    rt64_present: bool,
    apple: bool,
)
    requires
        args.len() >= 1,
        cfg.check_params,
        cfg.distance_file is Some,
        paths_are_not_params(cfg, arts),
    ensures
        spec_rewrite(args, cfg, arts, rt32_present, rt64_present, apple) matches Ok(out) ==> {
            &&& count_with_prefix(out, "-distance"@) == 1
            &&& out.len() >= 8
            &&& out[6] == "-mllvm"@
            &&& out[7] == "-distance="@ + cfg.distance_file.unwrap()
        },
{
    let rest = args.subrange(1, args.len() as int);
    lemma_stage_env_params(args[0], cfg, arts);
    let st_env = spec_stage_env(args[0], cfg, arts);
    let staged = spec_staged(args[0], cfg, arts);
    if spec_add_set(cfg) {
        lemma_stage_tokens_counts(st_env, split_whitespace_view(cfg.additional_params.unwrap()));
    }
    let st0 = spec_scan_init(staged, args);
    lemma_scan_dedup_counts(spec_add_set(cfg), staged.copy, st0, rest);
    let st = spec_scan(args, cfg, arts);
    assert(count_with_prefix(st.out, "-distance"@) == 1 && st.out.len() >= 8 && st.out[6]
        == "-mllvm"@ && st.out[7] == "-distance="@ + cfg.distance_file.unwrap());
    lemma_tail_counts(st, cfg, arts, rt32_present, rt64_present, apple);
    match spec_tail(st, cfg, arts, rt32_present, rt64_present, apple) {
        Ok(t) => {
            lemma_count_prefix_app(st.out, t, "-distance"@);
            let out = st.out + t;
            assert(out[6] == st.out[6]);
            assert(out[7] == st.out[7]);
        },
        Err(_) => {},
    }
}

/// Duplicate suppression, targets: as the distance law, for the targets
/// file; its `-mllvm -targets=<value>` pair stands directly after the
/// distance pair when one was staged, else directly after the preamble.
#[verifier::rlimit(100)]
pub proof fn lemma_targets_param_deduplicated(
    args: Seq<Seq<char>>,
    cfg: EnvConfigView,
    arts: ArtifactSetView,
    rt32_present: bool,
    rt64_present: bool,
    apple: bool,
)
    requires
        args.len() >= 1,
        cfg.check_params,
        cfg.targets_file is Some,
        paths_are_not_params(cfg, arts),
    ensures
        spec_rewrite(args, cfg, arts, rt32_present, rt64_present, apple) matches Ok(out) ==> {
            let d: int = if cfg.distance_file is Some { 2int } else { 0int };
            &&& count_with_prefix(out, "-targets"@) == 1
            &&& out.len() >= 8 + d
            &&& out[6 + d] == "-mllvm"@
            &&& out[7 + d] == "-targets="@ + cfg.targets_file.unwrap()
        },
{
    let rest = args.subrange(1, args.len() as int);
    lemma_stage_env_params(args[0], cfg, arts);
    let st_env = spec_stage_env(args[0], cfg, arts);
    let staged = spec_staged(args[0], cfg, arts);
    if spec_add_set(cfg) {
        lemma_stage_tokens_counts(st_env, split_whitespace_view(cfg.additional_params.unwrap()));
    }
    let st0 = spec_scan_init(staged, args);
    lemma_scan_dedup_counts(spec_add_set(cfg), staged.copy, st0, rest);
    let st = spec_scan(args, cfg, arts);
    let d: int = if cfg.distance_file is Some { 2int } else { 0int };
    assert(count_with_prefix(st.out, "-targets"@) == 1 && st.out.len() >= 8 + d && st.out[6 + d]
        == "-mllvm"@ && st.out[7 + d] == "-targets="@ + cfg.targets_file.unwrap());
    lemma_tail_counts(st, cfg, arts, rt32_present, rt64_present, apple);
    match spec_tail(st, cfg, arts, rt32_present, rt64_present, apple) {
        Ok(t) => {
            lemma_count_prefix_app(st.out, t, "-targets"@);
            let out = st.out + t;
            assert(out[6 + d] == st.out[6 + d]);
            assert(out[7 + d] == st.out[7 + d]);
        },
        Err(_) => {},
    }
}

/// Duplicate suppression, output directory: as the distance law, for the
/// output directory; its `-mllvm -outdir=<value>` pair stands after
/// whichever of the other two pairs were staged.
#[verifier::rlimit(100)]
pub proof fn lemma_outdir_param_deduplicated(
    args: Seq<Seq<char>>,
    cfg: EnvConfigView,
    arts: ArtifactSetView,
    rt32_present: bool,
    rt64_present: bool,
    apple: bool,
)
    requires
        args.len() >= 1,
        cfg.check_params,
        cfg.outdir is Some,
        paths_are_not_params(cfg, arts),
    ensures
        spec_rewrite(args, cfg, arts, rt32_present, rt64_present, apple) matches Ok(out) ==> {
            let d: int = if cfg.distance_file is Some { 2int } else { 0int };
            let t: int = if cfg.targets_file is Some { 2int } else { 0int };
            &&& count_with_prefix(out, "-outdir"@) == 1
            &&& out.len() >= 8 + d + t
            &&& out[6 + d + t] == "-mllvm"@
            &&& out[7 + d + t] == "-outdir="@ + cfg.outdir.unwrap()
        },
{
    let rest = args.subrange(1, args.len() as int);
    lemma_stage_env_params(args[0], cfg, arts);
    let st_env = spec_stage_env(args[0], cfg, arts);
    let staged = spec_staged(args[0], cfg, arts);
    if spec_add_set(cfg) {
        lemma_stage_tokens_counts(st_env, split_whitespace_view(cfg.additional_params.unwrap()));
    }
    let st0 = spec_scan_init(staged, args);
    lemma_scan_dedup_counts(spec_add_set(cfg), staged.copy, st0, rest);
    let st = spec_scan(args, cfg, arts);
    let d: int = if cfg.distance_file is Some { 2int } else { 0int };
    let t: int = if cfg.targets_file is Some { 2int } else { 0int };
    assert(count_with_prefix(st.out, "-outdir"@) == 1 && st.out.len() >= 8 + d + t && st.out[6 + d
        + t] == "-mllvm"@ && st.out[7 + d + t] == "-outdir="@ + cfg.outdir.unwrap());
    lemma_tail_counts(st, cfg, arts, rt32_present, rt64_present, apple);
    match spec_tail(st, cfg, arts, rt32_present, rt64_present, apple) {
        Ok(t2) => {
            lemma_count_prefix_app(st.out, t2, "-outdir"@);
            let out = st.out + t2;
            assert(out[6 + d + t] == st.out[6 + d + t]);
            assert(out[7 + d + t] == st.out[7 + d + t]);
        },
        Err(_) => {},
    }
}

} // verus!
