use afl_clang_fast::artifacts::ArtifactSet;
use afl_clang_fast::config::EnvConfig;
use afl_clang_fast::rewrite::{check_edit_params, RewriteError};

fn sv(v: &[&str]) -> Vec<String> {
    v.iter().map(|s| s.to_string()).collect()
}

fn arts() -> ArtifactSet {
    ArtifactSet {
        pass_lib: "/afl/afl-llvm-pass.so".to_string(),
        runtime_default: "/afl/afl-llvm-rt.o".to_string(),
        runtime_32: "/afl/afl-llvm-rt-32.o".to_string(),
        runtime_64: "/afl/afl-llvm-rt-64.o".to_string(),
    }
}

fn persist_macro() -> String {
    "-D__AFL_LOOP(_A)=({ static volatile char *_B __attribute__((used));  _B = (char*)\"##SIG_AFL_PERSISTENT##\"; __attribute__((visibility(\"default\"))) int _L(unsigned int) __asm__(\"__afl_persistent_loop\"); _L(_A); })".to_string()
}

fn init_macro() -> String {
    "-D__AFL_INIT()=do { static volatile char *_A __attribute__((used));  _A = (char*)\"##SIG_AFL_DEFER_FORKSRV##\"; __attribute__((visibility(\"default\"))) void _I(void) __asm__(\"__afl_manual_init\"); _I(); } while (0)".to_string()
}

#[test]
fn plain_compile_and_link_full_vector() {
    let args = sv(&["afl-clang-fast", "foo.c"]);
    let out = check_edit_params(&args, &EnvConfig::all_unset(), &arts(), false, false, false)
        .unwrap();
    let mut expected = sv(&[
        "clang",
        "-Xclang",
        "-load",
        "-Xclang",
        "/afl/afl-llvm-pass.so",
        "-Qunused-arguments",
        "foo.c",
        "-g",
        "-funroll-loops",
        "-D__AFL_HAVE_MANUAL_CONTROL=1",
        "-D__AFL_COMPILER=1",
        "-DFUZZING_BUILD_MODE_UNSAFE_FOR_PRODUCTION=1",
    ]);
    expected.push(persist_macro());
    expected.push(init_macro());
    expected.push("/afl/afl-llvm-rt.o".to_string());
    assert_eq!(out, expected);
}

#[test]
fn cxx_wrapper_selects_cxx_compiler() {
    let args = sv(&["/usr/local/bin/afl-clang-fast++", "foo.cc"]);
    let out = check_edit_params(&args, &EnvConfig::all_unset(), &arts(), false, false, false)
        .unwrap();
    assert_eq!(out[0], "clang++");
}

#[test]
fn cc_override_wins_over_default() {
    let args = sv(&["afl-clang-fast", "foo.c"]);
    let mut cfg = EnvConfig::all_unset();
    cfg.cc_override = Some("clang-15".to_string());
    let out = check_edit_params(&args, &cfg, &arts(), false, false, false).unwrap();
    assert_eq!(out[0], "clang-15");
}

#[test]
fn cxx_override_wins_over_default() {
    let args = sv(&["afl-clang-fast++", "foo.cc"]);
    let mut cfg = EnvConfig::all_unset();
    cfg.cxx_override = Some("my-clang++".to_string());
    let out = check_edit_params(&args, &cfg, &arts(), false, false, false).unwrap();
    assert_eq!(out[0], "my-clang++");
}

#[test]
fn bare_version_probe_never_links() {
    let args = sv(&["afl-clang-fast", "-v"]);
    let out = check_edit_params(&args, &EnvConfig::all_unset(), &arts(), false, false, false)
        .unwrap();
    assert_eq!(*out.last().unwrap(), init_macro());
    assert!(!out.contains(&"/afl/afl-llvm-rt.o".to_string()));
}

#[test]
fn compile_only_never_links() {
    let args = sv(&["afl-clang-fast", "-c", "foo.c"]);
    let out = check_edit_params(&args, &EnvConfig::all_unset(), &arts(), false, false, false)
        .unwrap();
    assert_eq!(*out.last().unwrap(), init_macro());
    assert!(!out.contains(&"/afl/afl-llvm-rt.o".to_string()));
}

#[test]
fn shared_object_never_links() {
    let args = sv(&["afl-clang-fast", "-shared", "foo.o"]);
    let out = check_edit_params(&args, &EnvConfig::all_unset(), &arts(), false, false, false)
        .unwrap();
    assert!(!out.contains(&"/afl/afl-llvm-rt.o".to_string()));
}

#[test]
fn explicit_language_reasserted_before_runtime() {
    let args = sv(&["afl-clang-fast", "-x", "c", "foo.c"]);
    let out = check_edit_params(&args, &EnvConfig::all_unset(), &arts(), false, false, false)
        .unwrap();
    let n = out.len();
    assert_eq!(out[n - 3], "-x");
    assert_eq!(out[n - 2], "none");
    assert_eq!(out[n - 1], "/afl/afl-llvm-rt.o");
}

#[test]
fn no_undefined_linker_flags_dropped() {
    let args = sv(&["afl-clang-fast", "-Wl,-z,defs", "foo.c", "-Wl,--no-undefined"]);
    let out = check_edit_params(&args, &EnvConfig::all_unset(), &arts(), false, false, false)
        .unwrap();
    assert!(!out.contains(&"-Wl,-z,defs".to_string()));
    assert!(!out.contains(&"-Wl,--no-undefined".to_string()));
    assert!(out.contains(&"foo.c".to_string()));
}

#[test]
fn m32_without_runtime_fails() {
    let args = sv(&["afl-clang-fast", "-m32", "foo.c"]);
    let r = check_edit_params(&args, &EnvConfig::all_unset(), &arts(), false, true, false);
    assert_eq!(r, Err(RewriteError::MissingRuntime32));
    assert_eq!(
        RewriteError::MissingRuntime32.message(),
        "-m32 is not supported by your compiler"
    );
}

#[test]
fn m32_with_runtime_links_it() {
    let args = sv(&["afl-clang-fast", "-m32", "foo.c"]);
    let out = check_edit_params(&args, &EnvConfig::all_unset(), &arts(), true, false, false)
        .unwrap();
    assert_eq!(*out.last().unwrap(), "/afl/afl-llvm-rt-32.o");
}

#[test]
fn m64_with_runtime_links_it() {
    let args = sv(&["afl-clang-fast", "-m64", "foo.c"]);
    let out = check_edit_params(&args, &EnvConfig::all_unset(), &arts(), false, true, false)
        .unwrap();
    assert_eq!(*out.last().unwrap(), "/afl/afl-llvm-rt-64.o");
}

#[test]
fn m64_without_runtime_fails() {
    let args = sv(&["afl-clang-fast", "-m64", "foo.c"]);
    let r = check_edit_params(&args, &EnvConfig::all_unset(), &arts(), true, false, false);
    assert_eq!(r, Err(RewriteError::MissingRuntime64));
}

#[test]
fn last_bit_mode_flag_wins() {
    let args = sv(&["afl-clang-fast", "-m32", "-m64", "foo.c"]);
    let out = check_edit_params(&args, &EnvConfig::all_unset(), &arts(), false, true, false)
        .unwrap();
    assert_eq!(*out.last().unwrap(), "/afl/afl-llvm-rt-64.o");
}

#[test]
fn apple_macros_carry_extra_underscore() {
    let args = sv(&["afl-clang-fast", "foo.c"]);
    let out = check_edit_params(&args, &EnvConfig::all_unset(), &arts(), false, false, true)
        .unwrap();
    let persist = out
        .iter()
        .find(|s| s.starts_with("-D__AFL_LOOP"))
        .unwrap();
    assert!(persist.contains("___afl_persistent_loop"));
    let init = out.iter().find(|s| s.starts_with("-D__AFL_INIT")).unwrap();
    assert!(init.contains("___afl_manual_init"));
}

#[test]
fn passthrough_arguments_keep_their_order() {
    let args = sv(&["afl-clang-fast", "-O2", "foo.c", "-o", "foo", "-Wall"]);
    let out = check_edit_params(&args, &EnvConfig::all_unset(), &arts(), false, false, false)
        .unwrap();
    assert_eq!(&out[6..11], &sv(&["-O2", "foo.c", "-o", "foo", "-Wall"])[..]);
}
