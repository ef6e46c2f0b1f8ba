use marker_driver::driver::{marker_args, plan, with_sys_root, plan_driver_rustc, plan_driver_rustc_with_wrapper_mode, plan_with_wrapper_mode, sys_root_from_env, DriverAction, SysRootEnv};
use marker_driver::paths::toolchain_path;

fn strings(args: &[&str]) -> Vec<String> {
    args.iter().map(|s| s.to_string()).collect()
}

#[test]
fn rustc_flag_passes_everything_to_rustc() {
    let args = strings(&["marker_rustc_driver", "--version", "--rustc", "--sysroot", "/s"]);
    assert_eq!(
        plan(args, false),
        DriverAction::RunRustc(strings(&["rustc", "--version", "--sysroot", "/s"]))
    );
}

#[test]
fn informational_flags() {
    assert_eq!(plan(strings(&["d", "-V", "--sysroot", "/s"]), false), DriverAction::PrintVersion);
    assert_eq!(plan(strings(&["d", "--toolchain", "--help", "--sysroot", "/s"]), false), DriverAction::PrintToolchain);
    assert_eq!(plan(strings(&["d", "--help", "--sysroot", "/s"]), false), DriverAction::PrintHelp);
    assert_eq!(plan(strings(&["d", "x.rs", "-h", "--sysroot", "/s"]), true), DriverAction::PrintHelp);
}

#[test]
fn wrapper_mode_drops_the_rustc_path_and_ignores_help() {
    let args = strings(&["d", "/usr/bin/rustc", "-h", "--sysroot", "/s"]);
    assert_eq!(plan(args, false), DriverAction::RunMarker(strings(&["d", "-h", "--sysroot", "/s"])));
    let args = strings(&["d", "rustc", "lib.rs", "--sysroot", "/s"]);
    assert_eq!(plan(args, false), DriverAction::RunMarker(strings(&["d", "lib.rs", "--sysroot", "/s"])));
    let args = strings(&["d", "lib.rs", "--sysroot", "/s"]);
    assert_eq!(
        plan_with_wrapper_mode(args.clone(), false, false),
        DriverAction::RunMarker(args)
    );
}

#[test]
fn dependencies_with_capped_lints_run_without_marker() {
    let args = strings(&["d", "dep.rs", "--cap-lints", "allow", "--sysroot", "/s"]);
    assert_eq!(plan(args.clone(), false), DriverAction::RunDefault(args));
    let args = strings(&["d", "dep.rs", "--cap-lints=warn", "--sysroot", "/s"]);
    assert_eq!(plan(args.clone(), false), DriverAction::RunMarker(args));
    let args = strings(&["d", "dep.rs", "--cap-lints", "allow", "--force-warn", "x", "--sysroot", "/s"]);
    assert_eq!(plan(args.clone(), false), DriverAction::RunMarker(args));
}

#[test]
fn no_deps_runs_marker_only_on_the_primary_package() {
    let args = strings(&["d", "lib.rs", "--no-deps", "--sysroot", "/s"]);
    assert_eq!(plan(args.clone(), false), DriverAction::RunDefault(args.clone()));
    assert_eq!(plan(args.clone(), true), DriverAction::RunMarker(args));
}

#[test]
fn marker_cfg_flags() {
    let args = marker_args(strings(&["d", "lib.rs"]), &strings(&["lints_a", "lints_b"]));
    assert_eq!(
        args,
        strings(&["d", "lib.rs", "--cfg=marker", "--cfg=marker=\"lints_a\"", "--cfg=marker=\"lints_b\""])
    );
    assert_eq!(marker_args(strings(&["d"]), &vec![]), strings(&["d", "--cfg=marker"]));
}

fn env(sysroot: Option<&str>, rh: Option<&str>, mh: Option<&str>, rt: Option<&str>, mt: Option<&str>) -> SysRootEnv {
    SysRootEnv {
        sysroot: sysroot.map(String::from),
        rustup_home: rh.map(String::from),
        multirust_home: mh.map(String::from),
        rustup_toolchain: rt.map(String::from),
        multirust_toolchain: mt.map(String::from),
    }
}

#[test]
fn sys_root_lookup_order() {
    assert_eq!(sys_root_from_env(env(Some("/sys"), Some("/h"), None, Some("t"), None)), Some("/sys".to_string()));
    assert_eq!(
        sys_root_from_env(env(None, Some("/h"), Some("/m"), None, Some("nightly"))),
        Some("/h/toolchains/nightly".to_string())
    );
    assert_eq!(
        sys_root_from_env(env(None, None, Some("/m"), Some("stable"), Some("nightly"))),
        Some("/m/toolchains/stable".to_string())
    );
    assert_eq!(sys_root_from_env(env(None, Some("/h"), None, None, None)), None);
    assert_eq!(sys_root_from_env(env(None, None, None, Some("t"), None)), None);
}

#[test]
fn toolchain_directory() {
    assert_eq!(
        toolchain_path(Some("/home/u/.rustup".into()), Some("nightly-2023-08-24".into())),
        Some("/home/u/.rustup/toolchains/nightly-2023-08-24".to_string())
    );
    assert_eq!(
        toolchain_path(Some("/home/u/.rustup/".into()), Some("nightly".into())),
        Some("/home/u/.rustup/toolchains/nightly".to_string())
    );
    assert_eq!(toolchain_path(None, Some("nightly".into())), None);
    assert_eq!(toolchain_path(Some("/h".into()), None), None);
}

#[test]
fn driver_rustc_prints_the_toolchain_only_outside_wrapper_mode() {
    let args = strings(&["d", "--toolchain", "--help", "--sysroot", "/s"]);
    assert_eq!(plan_driver_rustc(args, false), DriverAction::PrintHelp);
    let args = strings(&["d", "--toolchain", "--sysroot", "/s"]);
    assert_eq!(plan_driver_rustc(args, false), DriverAction::PrintToolchain);
    let args = strings(&["d", "/usr/bin/rustc", "--toolchain", "--sysroot", "/s"]);
    assert_eq!(
        plan_driver_rustc(args, false),
        DriverAction::RunMarker(strings(&["d", "--toolchain", "--sysroot", "/s"]))
    );
    let args = strings(&["d", "x.rs", "--rustc", "-V"]);
    assert_eq!(plan_driver_rustc(args, false), DriverAction::RunRustc(strings(&["rustc", "x.rs", "-V"])));
    let args = strings(&["d", "x.rs", "--cap-lints", "allow", "--sysroot", "/s"]);
    assert_eq!(plan_driver_rustc_with_wrapper_mode(args.clone(), true, false), DriverAction::RunDefault(args));
}

#[test]
fn wrapper_mode_reads_the_file_stem_of_the_rustc_path() {
    let args = strings(&["d", "rustc.exe", "lib.rs", "--sysroot", "/s"]);
    assert_eq!(plan(args, false), DriverAction::RunMarker(strings(&["d", "lib.rs", "--sysroot", "/s"])));
    let args = strings(&["d", "/home/u/.cargo/bin/rustc", "-h", "--sysroot", "/s"]);
    assert_eq!(plan_driver_rustc(args, false), DriverAction::RunMarker(strings(&["d", "-h", "--sysroot", "/s"])));
    let args = strings(&["d", "/usr/bin/rustcx", "-h", "--sysroot", "/s"]);
    assert_eq!(plan(args, false), DriverAction::PrintHelp);
    let args = strings(&["d", "/opt/rustc/lib.rs", "-h", "--sysroot", "/s"]);
    assert_eq!(plan_driver_rustc(args, false), DriverAction::PrintHelp);
}

#[test]
fn toolchain_directory_of_a_versioned_toolchain() {
    assert_eq!(
        toolchain_path(Some("/home/u/.rustup".into()), Some("1.74.0".into())),
        Some("/home/u/.rustup/toolchains/1.74.0".to_string())
    );
    assert_eq!(
        sys_root_from_env(env(None, Some("/r"), Some("/m"), None, Some("mt"))),
        Some("/r/toolchains/mt".to_string())
    );
}

#[test]
fn wrapper_mode_skips_trailing_separators_and_dots() {
    let args = strings(&["d", "/usr/bin/rustc/", "-h", "--sysroot", "/s"]);
    assert_eq!(plan(args, false), DriverAction::RunMarker(strings(&["d", "-h", "--sysroot", "/s"])));
    let args = strings(&["d", "/usr/bin/rustc/.", "-h", "--sysroot", "/s"]);
    assert_eq!(plan_driver_rustc(args, false), DriverAction::RunMarker(strings(&["d", "-h", "--sysroot", "/s"])));
    let args = strings(&["d", "/usr/bin/rustc/..", "-h", "--sysroot", "/s"]);
    assert_eq!(plan(args, false), DriverAction::PrintHelp);
}

#[test]
fn an_absolute_toolchain_is_the_sysroot() {
    assert_eq!(
        toolchain_path(Some("/home/u/.rustup".into()), Some("/opt/toolchain".into())),
        Some("/opt/toolchain".to_string())
    );
    assert_eq!(
        sys_root_from_env(env(None, Some("/h"), None, Some("/t/nightly"), None)),
        Some("/t/nightly".to_string())
    );
}

#[test]
fn the_sysroot_is_added_only_when_missing() {
    let args = with_sys_root(strings(&["d", "lib.rs"]), || "/found".to_string());
    assert_eq!(args, strings(&["d", "lib.rs", "--sysroot", "/found"]));
    let args = with_sys_root(strings(&["d", "--sysroot=/given", "lib.rs"]), || panic!("not asked"));
    assert_eq!(args, strings(&["d", "--sysroot=/given", "lib.rs"]));
    let args = with_sys_root(strings(&["d", "--sysroot", "/given"]), || panic!("not asked"));
    assert_eq!(args, strings(&["d", "--sysroot", "/given"]));
    let args = with_sys_root(strings(&["d", "--sysroot"]), || "/found".to_string());
    assert_eq!(args, strings(&["d", "--sysroot", "--sysroot", "/found"]));
}
