use afl_clang_fast::artifacts::ArtifactSet;
use afl_clang_fast::config::EnvConfig;
use afl_clang_fast::rewrite::check_edit_params;

fn sv(v: &[&str]) -> Vec<String> {
    v.iter().map(|s| s.to_string()).collect()
}

fn arts() -> ArtifactSet {
    ArtifactSet {
        pass_lib: "/afl/afl-llvm-pass.so".to_string(),
        runtime_default: "/afl/afl-llvm-rt.o".to_string(),
        runtime_32: "/afl/afl-llvm-rt-32.o".to_string(),
        runtime_64: "/afl/afl-llvm-rt-64.o".to_string(),
    }
}

fn count_prefixed(out: &[String], p: &str) -> usize {
    out.iter().filter(|x| x.starts_with(p)).count()
}

#[test]
fn env_distance_is_staged_behind_mllvm() {
    let args = sv(&["afl-clang-fast", "foo.c"]);
    let mut cfg = EnvConfig::all_unset();
    cfg.check_params = true;
    cfg.distance_file = Some("/work/distance.cfg.txt".to_string());
    let out = check_edit_params(&args, &cfg, &arts(), false, false, false).unwrap();
    assert_eq!(out[6], "-mllvm");
    assert_eq!(out[7], "-distance=/work/distance.cfg.txt");
}

#[test]
fn env_and_argument_distance_yield_one_pair() {
    let args = sv(&[
        "afl-clang-fast",
        "-distance=/work/distance.cfg.txt",
        "foo.c",
    ]);
    let mut cfg = EnvConfig::all_unset();
    cfg.check_params = true;
    cfg.distance_file = Some("/work/distance.cfg.txt".to_string());
    let out = check_edit_params(&args, &cfg, &arts(), false, false, false).unwrap();
    assert_eq!(count_prefixed(&out, "-distance"), 1);
    assert_eq!(out[6], "-mllvm");
    assert_eq!(out[7], "-distance=/work/distance.cfg.txt");
    assert_eq!(out[8], "foo.c");
}

#[test]
fn env_and_argument_targets_yield_one_pair() {
    let args = sv(&["afl-clang-fast", "-targets=/w/t.txt", "foo.c"]);
    let mut cfg = EnvConfig::all_unset();
    cfg.check_params = true;
    cfg.targets_file = Some("/w/t.txt".to_string());
    let out = check_edit_params(&args, &cfg, &arts(), false, false, false).unwrap();
    assert_eq!(count_prefixed(&out, "-targets"), 1);
    assert_eq!(out[6], "-mllvm");
    assert_eq!(out[7], "-targets=/w/t.txt");
    assert_eq!(out[8], "foo.c");
}

#[test]
fn env_and_argument_outdir_yield_one_pair() {
    let args = sv(&["afl-clang-fast", "-outdir=/w/out", "foo.c"]);
    let mut cfg = EnvConfig::all_unset();
    cfg.check_params = true;
    cfg.distance_file = Some("/w/d.txt".to_string());
    cfg.outdir = Some("/w/out".to_string());
    let out = check_edit_params(&args, &cfg, &arts(), false, false, false).unwrap();
    assert_eq!(count_prefixed(&out, "-outdir"), 1);
    assert_eq!(out[8], "-mllvm");
    assert_eq!(out[9], "-outdir=/w/out");
    assert_eq!(out[10], "foo.c");
}

#[test]
fn all_three_params_staged_in_order() {
    let args = sv(&["afl-clang-fast", "foo.c"]);
    let mut cfg = EnvConfig::all_unset();
    cfg.check_params = true;
    cfg.distance_file = Some("/w/d.txt".to_string());
    cfg.targets_file = Some("/w/t.txt".to_string());
    cfg.outdir = Some("/w/out".to_string());
    let out = check_edit_params(&args, &cfg, &arts(), false, false, false).unwrap();
    assert_eq!(&out[6..12], &sv(&[
        "-mllvm",
        "-distance=/w/d.txt",
        "-mllvm",
        "-targets=/w/t.txt",
        "-mllvm",
        "-outdir=/w/out",
    ])[..]);
}

#[test]
fn argument_distance_gets_mllvm_marker_when_env_unset() {
    let args = sv(&["afl-clang-fast", "-distance=/w/d.txt", "foo.c"]);
    let mut cfg = EnvConfig::all_unset();
    cfg.check_params = true;
    let out = check_edit_params(&args, &cfg, &arts(), false, false, false).unwrap();
    assert_eq!(out[6], "-mllvm");
    assert_eq!(out[7], "-distance=/w/d.txt");
}

#[test]
fn without_checking_duplicates_pass_through() {
    // with the verify switch off, every occurrence is forwarded, each with
    // its own marker
    let args = sv(&[
        "afl-clang-fast",
        "-distance=/w/d.txt",
        "-distance=/w/d.txt",
        "foo.c",
    ]);
    let out = check_edit_params(&args, &EnvConfig::all_unset(), &arts(), false, false, false)
        .unwrap();
    assert_eq!(count_prefixed(&out, "-distance"), 2);
}

#[test]
fn additional_params_pass_through_with_markers() {
    let args = sv(&["afl-clang-fast", "foo.c"]);
    let mut cfg = EnvConfig::all_unset();
    cfg.check_params = true;
    cfg.additional_params = Some("-targets=/w/t.txt  -extra-flag".to_string());
    let out = check_edit_params(&args, &cfg, &arts(), false, false, false).unwrap();
    assert_eq!(&out[6..9], &sv(&["-mllvm", "-targets=/w/t.txt", "-extra-flag"])[..]);
}

#[test]
fn additional_param_token_suppresses_equal_argument() {
    let args = sv(&["afl-clang-fast", "-extra-flag", "foo.c"]);
    let mut cfg = EnvConfig::all_unset();
    cfg.check_params = true;
    cfg.additional_params = Some("-extra-flag".to_string());
    let out = check_edit_params(&args, &cfg, &arts(), false, false, false).unwrap();
    assert_eq!(out.iter().filter(|x| x.as_str() == "-extra-flag").count(), 1);
    assert_eq!(out[7], "foo.c");
}

#[test]
fn staged_param_suppresses_additional_token_duplicate() {
    let args = sv(&["afl-clang-fast", "foo.c"]);
    let mut cfg = EnvConfig::all_unset();
    cfg.check_params = true;
    cfg.distance_file = Some("/w/d.txt".to_string());
    cfg.additional_params = Some("-distance=/w/other.txt".to_string());
    let out = check_edit_params(&args, &cfg, &arts(), false, false, false).unwrap();
    assert_eq!(count_prefixed(&out, "-distance"), 1);
    assert_eq!(out[7], "-distance=/w/d.txt");
}

#[test]
fn checking_off_ignores_env_params() {
    let args = sv(&["afl-clang-fast", "foo.c"]);
    let mut cfg = EnvConfig::all_unset();
    cfg.distance_file = Some("/w/d.txt".to_string());
    cfg.targets_file = Some("/w/t.txt".to_string());
    cfg.outdir = Some("/w/out".to_string());
    cfg.additional_params = Some("-extra".to_string());
    let out = check_edit_params(&args, &cfg, &arts(), false, false, false).unwrap();
    assert_eq!(count_prefixed(&out, "-distance"), 0);
    assert_eq!(count_prefixed(&out, "-targets"), 0);
    assert_eq!(count_prefixed(&out, "-outdir"), 0);
    assert!(!out.contains(&"-extra".to_string()));
}

#[test]
fn empty_additional_params_add_nothing() {
    let args = sv(&["afl-clang-fast", "foo.c"]);
    let mut cfg = EnvConfig::all_unset();
    cfg.check_params = true;
    cfg.additional_params = Some("   ".to_string());
    let out = check_edit_params(&args, &cfg, &arts(), false, false, false).unwrap();
    assert_eq!(out[6], "foo.c");
}
