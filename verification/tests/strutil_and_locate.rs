use afl_clang_fast::artifacts::{locate, ArtifactSet, DirProbe, LocateError, SearchDirProbe};
use afl_clang_fast::strutil::{
    cmp_first_chars, cmp_with_group_strings, has_prefix, has_suffix, split_on_commas,
    split_whitespace_tokens, str_contains, str_eq,
};

fn probe(dir: &str, has_pass: bool, has_runtime: bool) -> DirProbe {
    DirProbe {
        pass_lib: format!("{}/afl-llvm-pass.so", dir),
        runtime_default: format!("{}/afl-llvm-rt.o", dir),
        runtime_32: format!("{}/afl-llvm-rt-32.o", dir),
        runtime_64: format!("{}/afl-llvm-rt-64.o", dir),
        has_pass,
        has_runtime,
    }
}

#[test]
fn cmp_first_chars_matches_prefixes() {
    assert!(cmp_first_chars("-distance=/x", "-distance", 9));
    assert!(!cmp_first_chars("-dist", "-distance", 9));
    assert!(!cmp_first_chars("-targets=/x", "-distance", 9));
    assert!(cmp_first_chars("abc", "abd", 2));
    assert!(!cmp_first_chars("abc", "abd", 3));
}

#[test]
fn cmp_with_group_strings_finds_exact_matches() {
    let group = vec!["-extra".to_string(), "-flag".to_string()];
    assert!(cmp_with_group_strings("-extra", &group));
    assert!(cmp_with_group_strings("-flag", &group));
    assert!(!cmp_with_group_strings("-extra2", &group));
    assert!(!cmp_with_group_strings("-extra", &Vec::new()));
}

#[test]
fn str_helpers_work_on_multibyte_text() {
    assert!(str_eq("grüß", "grüß"));
    assert!(!str_eq("grüß", "gruß"));
    assert!(has_prefix("naïve-flag", "naï"));
    assert!(has_suffix("fichier-é.o", "-é.o"));
    assert!(str_contains("xxFORTIFY_SOURCEyy", "FORTIFY_SOURCE"));
    assert!(!str_contains("FORTIFY", "FORTIFY_SOURCE"));
    assert!(cmp_first_chars("äbc", "äbd", 2));
}

#[test]
fn split_whitespace_tokens_collapses_runs() {
    assert_eq!(
        split_whitespace_tokens("  -a \t-b\n-c  "),
        vec!["-a".to_string(), "-b".to_string(), "-c".to_string()]
    );
    assert_eq!(split_whitespace_tokens(""), Vec::<String>::new());
    assert_eq!(split_whitespace_tokens(" \t "), Vec::<String>::new());
}

#[test]
fn split_on_commas_keeps_empty_fields() {
    assert_eq!(
        split_on_commas("address,undefined"),
        vec!["address".to_string(), "undefined".to_string()]
    );
    assert_eq!(
        split_on_commas("a,,b,"),
        vec!["a".to_string(), "".to_string(), "b".to_string(), "".to_string()]
    );
    assert_eq!(split_on_commas(""), vec!["".to_string()]);
}

#[test]
fn locate_prefers_executable_directory() {
    let a: ArtifactSet = locate(probe("/exe", true, true), None).unwrap();
    assert_eq!(a.pass_lib, "/exe/afl-llvm-pass.so");
    assert_eq!(a.runtime_default, "/exe/afl-llvm-rt.o");
    assert_eq!(a.runtime_32, "/exe/afl-llvm-rt-32.o");
    assert_eq!(a.runtime_64, "/exe/afl-llvm-rt-64.o");
}

#[test]
fn locate_falls_back_to_search_directory() {
    let sd = SearchDirProbe { dir_exists: true, is_dir: true, probe: probe("/afl", true, true) };
    let a = locate(probe("/exe", false, true), Some(sd)).unwrap();
    assert_eq!(a.pass_lib, "/afl/afl-llvm-pass.so");
}

#[test]
fn locate_fails_when_search_dir_unset() {
    assert_eq!(locate(probe("/exe", true, false), None), Err(LocateError::SearchDirUnset));
}

#[test]
fn locate_fails_when_search_dir_missing() {
    let sd = SearchDirProbe { dir_exists: false, is_dir: false, probe: probe("/afl", true, true) };
    assert_eq!(
        locate(probe("/exe", false, false), Some(sd)),
        Err(LocateError::SearchDirMissing)
    );
}

#[test]
fn locate_fails_when_search_dir_is_no_directory() {
    let sd = SearchDirProbe { dir_exists: true, is_dir: false, probe: probe("/afl", true, true) };
    assert_eq!(
        locate(probe("/exe", false, false), Some(sd)),
        Err(LocateError::SearchDirNotADir)
    );
}

#[test]
fn locate_fails_when_artifacts_not_found_anywhere() {
    let sd = SearchDirProbe { dir_exists: true, is_dir: true, probe: probe("/afl", true, false) };
    assert_eq!(
        locate(probe("/exe", true, false), Some(sd)),
        Err(LocateError::ArtifactsNotFound)
    );
}
