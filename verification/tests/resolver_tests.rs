use cargo_android::resolver::{
    adb, clamp_api, envs, envs_for_host, host_arch, host_os, linker, ndk, process_args, runner,
    toolchain,
};
use cargo_android::text::{fmt_usize, parse_usize, snake_upper, str_eq, str_starts_with};
use cargo_android::RunError;

#[test]
fn linker_variable_name() {
    let r = linker("aarch64-linux-android");
    assert_eq!(r, "CARGO_TARGET_AARCH64_LINUX_ANDROID_LINKER");
}

#[test]
fn runner_variable_name() {
    let r = runner("aarch64-linux-android");
    assert_eq!(r, "CARGO_TARGET_AARCH64_LINUX_ANDROID_RUNNER");
}

#[test]
fn toolchain_paths_for_aarch64() {
    let t = toolchain("aarch64-linux-android", 21, "/ndk", "linux", "x86_64").unwrap();
    assert_eq!(
        t.cc,
        "/ndk/toolchains/llvm/prebuilt/linux-x86_64/bin/aarch64-linux-android21-clang"
    );
    assert!(t.cc.contains("aarch64-linux-android21-clang"));
    assert_eq!(
        t.cxx,
        "/ndk/toolchains/llvm/prebuilt/linux-x86_64/bin/aarch64-linux-android21-clang++"
    );
    assert_eq!(t.ar, "/ndk/toolchains/llvm/prebuilt/linux-x86_64/bin/llvm-ar");
    assert_eq!(t.strip, "/ndk/toolchains/llvm/prebuilt/linux-x86_64/bin/llvm-strip");
}

#[test]
fn toolchain_substitutes_armv7_alias() {
    let t = toolchain("armv7-linux-androideabi", 21, "/ndk", "linux", "x86_64").unwrap();
    assert_eq!(
        t.cc,
        "/ndk/toolchains/llvm/prebuilt/linux-x86_64/bin/armv7a-linux-androideabi21-clang"
    );
    assert!(!t.cc.contains("/armv7-"));
    assert!(t.cc.contains("armv7a-linux-androideabi21-clang"));
}

#[test]
fn toolchain_maps_macos_to_darwin() {
    let t = toolchain("aarch64-linux-android", 28, "/ndk", "macos", "aarch64").unwrap();
    assert_eq!(
        t.cc,
        "/ndk/toolchains/llvm/prebuilt/darwin-aarch64/bin/aarch64-linux-android28-clang"
    );
}

#[test]
fn toolchain_rejects_triple_without_separator() {
    let r = toolchain("aarch64", 21, "/ndk", "linux", "x86_64");
    assert!(matches!(r, Err(RunError::MalformedTarget)));
}

#[test]
fn clamp_raises_low_api_to_floor() {
    assert_eq!(clamp_api(10), 19);
    assert_eq!(clamp_api(19), 19);
    assert_eq!(clamp_api(28), 28);
}

#[test]
fn ndk_picks_first_set_variable() {
    assert_eq!(
        ndk(Some("a".to_string()), Some("b".to_string()), Some("c".to_string())),
        Ok("a".to_string())
    );
    assert_eq!(ndk(None, Some("b".to_string()), None), Ok("b".to_string()));
    assert_eq!(ndk(None, None, Some("c".to_string())), Ok("c".to_string()));
    assert_eq!(ndk(None, None, None), Err(RunError::MissingSdkRoot));
}

#[test]
fn envs_bind_the_six_variables() {
    let v = envs("aarch64-linux-android", 21, "/ndk", "linux", "x86_64").unwrap();
    let cc = "/ndk/toolchains/llvm/prebuilt/linux-x86_64/bin/aarch64-linux-android21-clang";
    assert_eq!(v.len(), 6);
    assert_eq!(v[0], ("CARGO_BUILD_TARGET".to_string(), "aarch64-linux-android".to_string()));
    assert_eq!(v[1], ("CARGO_TARGET_AARCH64_LINUX_ANDROID_LINKER".to_string(), cc.to_string()));
    assert_eq!(
        v[2],
        ("CARGO_TARGET_AARCH64_LINUX_ANDROID_RUNNER".to_string(), "cargo-ndk-run".to_string())
    );
    assert_eq!(v[3], ("CC_aarch64-linux-android".to_string(), cc.to_string()));
    assert_eq!(
        v[4],
        (
            "CXX_aarch64-linux-android".to_string(),
            "/ndk/toolchains/llvm/prebuilt/linux-x86_64/bin/aarch64-linux-android21-clang++"
                .to_string()
        )
    );
    assert_eq!(
        v[5],
        (
            "AR_aarch64-linux-android".to_string(),
            "/ndk/toolchains/llvm/prebuilt/linux-x86_64/bin/llvm-ar".to_string()
        )
    );
}

#[test]
fn envs_reject_malformed_target() {
    assert!(matches!(
        envs("aarch64", 21, "/ndk", "linux", "x86_64"),
        Err(RunError::MalformedTarget)
    ));
}

#[test]
fn envs_for_host_uses_the_compile_time_host() {
    let v = envs_for_host("aarch64-linux-android", 21, "/ndk").unwrap();
    assert_eq!(v.len(), 6);
    let expected_cc = format!(
        "/ndk/toolchains/llvm/prebuilt/{}-{}/bin/aarch64-linux-android21-clang",
        if host_os() == "macos" { "darwin".to_string() } else { host_os() },
        host_arch()
    );
    assert_eq!(v[1].1, expected_cc);
}

#[test]
fn process_args_reads_leading_api_level() {
    let args = vec!["api=21".to_string(), "build".to_string(), "--release".to_string()];
    let (api, rest) = process_args(&args).unwrap();
    assert_eq!(api, 21);
    assert_eq!(rest, vec!["build".to_string(), "--release".to_string()]);
}

#[test]
fn process_args_defaults_to_28() {
    let args = vec!["build".to_string()];
    let (api, rest) = process_args(&args).unwrap();
    assert_eq!(api, 28);
    assert_eq!(rest, vec!["build".to_string()]);
}

#[test]
fn process_args_rejects_bad_api_value() {
    assert_eq!(process_args(&vec!["api=x".to_string()]), None);
    assert_eq!(process_args(&vec!["api=".to_string()]), None);
}

#[test]
fn fmt_and_parse_round_numbers() {
    assert_eq!(fmt_usize(0), "0");
    assert_eq!(fmt_usize(21), "21");
    assert_eq!(fmt_usize(1234), "1234");
    assert_eq!(parse_usize("0"), Some(0));
    assert_eq!(parse_usize("28"), Some(28));
    assert_eq!(parse_usize(""), None);
    assert_eq!(parse_usize("1a"), None);
    assert_eq!(parse_usize("99999999999999999999999999999"), None);
}

#[test]
fn snake_upper_transforms_triple() {
    assert_eq!(snake_upper("aarch64-linux-android"), "AARCH64_LINUX_ANDROID");
    assert_eq!(snake_upper(""), "");
}

#[test]
fn string_helpers_compare_exactly() {
    assert!(str_eq("abc", "abc"));
    assert!(!str_eq("abc", "abd"));
    assert!(!str_eq("abc", "ab"));
    assert!(str_starts_with("api=21", "api="));
    assert!(!str_starts_with("ap", "api="));
    assert!(!str_starts_with("build", "api="));
}

#[test]
fn host_wrappers_answer() {
    assert!(!host_os().is_empty());
    assert!(!host_arch().is_empty());
    // Whether the bridge is installed depends on the machine; the call
    // must simply answer.
    let _ = adb();
}
