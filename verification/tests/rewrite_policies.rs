use afl_clang_fast::artifacts::ArtifactSet;
use afl_clang_fast::config::EnvConfig;
use afl_clang_fast::rewrite::{check_edit_params, RewriteError};

fn sv(v: &[&str]) -> Vec<String> {
    v.iter().map(|s| s.to_string()).collect()
}

fn arts() -> ArtifactSet {
    ArtifactSet {
        pass_lib: "/afl/afl-llvm-pass.so".to_string(),
        runtime_default: "/afl/afl-llvm-rt.o".to_string(),
        runtime_32: "/afl/afl-llvm-rt-32.o".to_string(),
        runtime_64: "/afl/afl-llvm-rt-64.o".to_string(),
    }
}

fn count(out: &[String], s: &str) -> usize {
    out.iter().filter(|x| x.as_str() == s).count()
}

#[test]
fn asan_and_msan_env_conflict_is_fatal() {
    let args = sv(&["afl-clang-fast", "foo.c"]);
    let mut cfg = EnvConfig::all_unset();
    cfg.use_asan = true;
    cfg.use_msan = true;
    let r = check_edit_params(&args, &cfg, &arts(), false, false, false);
    assert_eq!(r, Err(RewriteError::AsanMsanConflict));
    assert_eq!(
        RewriteError::AsanMsanConflict.message(),
        "ASan and MSan are mutually exclusive."
    );
}

#[test]
fn asan_msan_conflict_beats_other_flags() {
    // the conflict is reported before any linking or bit-mode error
    let args = sv(&["afl-clang-fast", "-m32", "foo.c"]);
    let mut cfg = EnvConfig::all_unset();
    cfg.use_asan = true;
    cfg.use_msan = true;
    cfg.harden = true;
    let r = check_edit_params(&args, &cfg, &arts(), false, false, false);
    assert_eq!(r, Err(RewriteError::AsanMsanConflict));
}

#[test]
fn asan_and_harden_conflict_is_fatal_either_way() {
    let mut cfg = EnvConfig::all_unset();
    cfg.use_asan = true;
    cfg.harden = true;
    let args_a = sv(&["afl-clang-fast", "foo.c", "-O2"]);
    let args_b = sv(&["afl-clang-fast", "-O2", "foo.c"]);
    let ra = check_edit_params(&args_a, &cfg, &arts(), false, false, false);
    let rb = check_edit_params(&args_b, &cfg, &arts(), false, false, false);
    assert_eq!(ra, Err(RewriteError::AsanHardenConflict));
    assert_eq!(rb, Err(RewriteError::AsanHardenConflict));
    assert_eq!(
        RewriteError::AsanHardenConflict.message(),
        "ASan and AFL_HARDEN are mutually exclusive."
    );
}

#[test]
fn msan_and_harden_conflict_is_fatal() {
    let args = sv(&["afl-clang-fast", "foo.c"]);
    let mut cfg = EnvConfig::all_unset();
    cfg.use_msan = true;
    cfg.harden = true;
    let r = check_edit_params(&args, &cfg, &arts(), false, false, false);
    assert_eq!(r, Err(RewriteError::MsanHardenConflict));
    assert_eq!(
        RewriteError::MsanHardenConflict.message(),
        "MSan and AFL_HARDEN are mutually exclusive."
    );
}

#[test]
fn env_conflict_is_fatal_despite_sanitizer_argument() {
    // the conflict is between the environment switches alone: an argument
    // that already selects a sanitizer does not disarm it
    let args = sv(&["afl-clang-fast", "-fsanitize=address", "foo.c"]);
    let mut cfg = EnvConfig::all_unset();
    cfg.use_asan = true;
    cfg.use_msan = true;
    let r = check_edit_params(&args, &cfg, &arts(), false, false, false);
    assert_eq!(r, Err(RewriteError::AsanMsanConflict));
}

#[test]
fn sanitizer_argument_skips_enabling_epilogue() {
    // without a conflict, a sanitizer selected by an argument suppresses
    // the environment epilogue for it: no duplicate flag, no un-define
    let args = sv(&["afl-clang-fast", "-fsanitize=address", "foo.c"]);
    let mut cfg = EnvConfig::all_unset();
    cfg.use_asan = true;
    let out = check_edit_params(&args, &cfg, &arts(), false, false, false).unwrap();
    assert_eq!(count(&out, "-fsanitize=address"), 1);
    assert_eq!(count(&out, "-U_FORTIFY_SOURCE"), 0);
}

#[test]
fn asan_env_appends_undef_and_sanitize() {
    let args = sv(&["afl-clang-fast", "foo.c"]);
    let mut cfg = EnvConfig::all_unset();
    cfg.use_asan = true;
    let out = check_edit_params(&args, &cfg, &arts(), false, false, false).unwrap();
    let i = out.iter().position(|s| s == "-U_FORTIFY_SOURCE").unwrap();
    assert_eq!(out[i + 1], "-fsanitize=address");
}

#[test]
fn msan_env_appends_undef_and_sanitize() {
    let args = sv(&["afl-clang-fast", "foo.c"]);
    let mut cfg = EnvConfig::all_unset();
    cfg.use_msan = true;
    let out = check_edit_params(&args, &cfg, &arts(), false, false, false).unwrap();
    let i = out.iter().position(|s| s == "-U_FORTIFY_SOURCE").unwrap();
    assert_eq!(out[i + 1], "-fsanitize=memory");
}

#[test]
fn ubsan_with_asan_undefines_fortify_once() {
    let args = sv(&["afl-clang-fast", "foo.c"]);
    let mut cfg = EnvConfig::all_unset();
    cfg.use_asan = true;
    cfg.use_ubsan = true;
    let out = check_edit_params(&args, &cfg, &arts(), false, false, false).unwrap();
    assert_eq!(count(&out, "-U_FORTIFY_SOURCE"), 1);
    assert_eq!(count(&out, "-fsanitize=address"), 1);
    assert_eq!(count(&out, "-fsanitize=undefined"), 1);
}

#[test]
fn ubsan_alone_undefines_fortify() {
    let args = sv(&["afl-clang-fast", "foo.c"]);
    let mut cfg = EnvConfig::all_unset();
    cfg.use_ubsan = true;
    let out = check_edit_params(&args, &cfg, &arts(), false, false, false).unwrap();
    let i = out.iter().position(|s| s == "-U_FORTIFY_SOURCE").unwrap();
    assert_eq!(out[i + 1], "-fsanitize=undefined");
}

#[test]
fn ubsan_argument_suppresses_env_duplicate() {
    let args = sv(&["afl-clang-fast", "-fsanitize=undefined", "foo.c"]);
    let mut cfg = EnvConfig::all_unset();
    cfg.use_ubsan = true;
    let out = check_edit_params(&args, &cfg, &arts(), false, false, false).unwrap();
    assert_eq!(count(&out, "-fsanitize=undefined"), 1);
}

#[test]
fn sanitizer_list_is_split_on_commas() {
    let args = sv(&["afl-clang-fast", "-fsanitize=address,undefined", "foo.c"]);
    let mut cfg = EnvConfig::all_unset();
    cfg.use_asan = true;
    cfg.use_ubsan = true;
    let out = check_edit_params(&args, &cfg, &arts(), false, false, false).unwrap();
    // both sanitizers were seen in the argument, so neither epilogue fires
    assert_eq!(count(&out, "-fsanitize=address,undefined"), 1);
    assert_eq!(count(&out, "-fsanitize=address"), 0);
    assert_eq!(count(&out, "-fsanitize=undefined"), 0);
}

#[test]
fn harden_appends_protector_and_fortify() {
    let args = sv(&["afl-clang-fast", "foo.c"]);
    let mut cfg = EnvConfig::all_unset();
    cfg.harden = true;
    let out = check_edit_params(&args, &cfg, &arts(), false, false, false).unwrap();
    let i = out.iter().position(|s| s == "-fstack-protector-all").unwrap();
    assert_eq!(out[i + 1], "-D_FORTIFY_SOURCE=2");
}

#[test]
fn fortify_argument_suppresses_fortify_definition() {
    let args = sv(&["afl-clang-fast", "-DFORTIFY_SOURCE=1", "foo.c"]);
    let mut cfg = EnvConfig::all_unset();
    cfg.harden = true;
    let out = check_edit_params(&args, &cfg, &arts(), false, false, false).unwrap();
    assert_eq!(count(&out, "-fstack-protector-all"), 1);
    assert_eq!(count(&out, "-D_FORTIFY_SOURCE=2"), 0);
    assert_eq!(count(&out, "-DFORTIFY_SOURCE=1"), 1);
}

#[test]
fn dont_optimize_suppresses_debug_flags() {
    let args = sv(&["afl-clang-fast", "foo.c"]);
    let mut cfg = EnvConfig::all_unset();
    cfg.dont_optimize = true;
    let out = check_edit_params(&args, &cfg, &arts(), false, false, false).unwrap();
    assert_eq!(count(&out, "-g"), 0);
    assert_eq!(count(&out, "-funroll-loops"), 0);
}

#[test]
fn no_builtin_appends_five_flags() {
    let args = sv(&["afl-clang-fast", "foo.c"]);
    let mut cfg = EnvConfig::all_unset();
    cfg.no_builtin = true;
    let out = check_edit_params(&args, &cfg, &arts(), false, false, false).unwrap();
    for f in [
        "-fno-builtin-strcmp",
        "-fno-builtin-strncmp",
        "-fno-builtin-strcasecmp",
        "-fno-builtin-strncasecmp",
        "-fno-builtin-memcmp",
    ] {
        assert_eq!(count(&out, f), 1);
    }
}
