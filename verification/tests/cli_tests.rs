use marker_driver::cli::{arg_value, as_strs, contains_arg, has_sys_root_arg, position_of};

#[test]
fn test_arg_value() {
    let args = &["--bar=bar", "--foobar", "123", "--foo"];

    assert_eq!(arg_value(&[] as &[&str], "--foobar", |_| true), None);
    assert_eq!(arg_value(args, "--bar", |_| false), None);
    assert_eq!(arg_value(args, "--bar", |_| true), Some("bar"));
    assert_eq!(arg_value(args, "--bar", |p| p == "bar"), Some("bar"));
    assert_eq!(arg_value(args, "--bar", |p| p == "foo"), None);
    assert_eq!(arg_value(args, "--foobar", |p| p == "foo"), None);
    assert_eq!(arg_value(args, "--foobar", |p| p == "123"), Some("123"));
    assert_eq!(arg_value(args, "--foo", |_| true), None);
}

#[test]
fn main_test_arg_value() {
    let args = &["--bar=bar", "--foobar", "123", "--foo"];

    assert_eq!(arg_value(&[] as &[&str], "--foobar", |_| true), None);
    assert_eq!(arg_value(args, "--bar", |_| false), None);
    assert_eq!(arg_value(args, "--bar", |_| true), Some("bar"));
    assert_eq!(arg_value(args, "--bar", |p| p == "bar"), Some("bar"));
    assert_eq!(arg_value(args, "--bar", |p| p == "foo"), None);
    assert_eq!(arg_value(args, "--foobar", |p| p == "foo"), None);
    assert_eq!(arg_value(args, "--foobar", |p| p == "123"), Some("123"));
    assert_eq!(arg_value(args, "--foo", |_| true), None);
}

#[test]
fn arg_value_skips_rejected_values_in_order() {
    let args = &["--cap-lints", "warn", "--cap-lints=allow"];
    assert_eq!(arg_value(args, "--cap-lints", |v| v == "allow"), Some("allow"));
    assert_eq!(arg_value(args, "--cap-lints", |_| true), Some("warn"));
}

#[test]
fn arg_value_consumes_the_following_value() {
    // The second `--bar` is the value of the first, not an option.
    let args = &["--bar", "--bar", "x"];
    assert_eq!(arg_value(args, "--bar", |v| v == "x"), None);
    assert_eq!(arg_value(args, "--bar", |_| true), Some("--bar"));
}

#[test]
fn arg_value_splits_at_the_first_equals_sign() {
    let args = &["--cfg=feature=\"x\"", "--cfg", "a=b"];
    assert_eq!(arg_value(args, "--cfg", |_| true), Some("feature=\"x\""));
    assert_eq!(arg_value(args, "--cfg", |v| v == "a=b"), Some("a=b"));
    assert_eq!(arg_value(&["--k="], "--k", |_| true), Some(""));
}

#[test]
fn sys_root_arg_detection() {
    assert!(has_sys_root_arg(&["driver", "--sysroot", "/opt/rust"]));
    assert!(has_sys_root_arg(&["driver", "--sysroot=/opt/rust"]));
    assert!(!has_sys_root_arg(&["driver", "--sysroot"]));
    assert!(!has_sys_root_arg(&["driver", "--sysroots", "x"]));
}

#[test]
fn string_list_helpers() {
    let args: Vec<String> = vec!["a".into(), "--rustc".into(), "b".into(), "--rustc".into()];
    assert_eq!(position_of(&args, "--rustc"), Some(1));
    assert_eq!(position_of(&args, "c"), None);
    assert!(contains_arg(&args, "b"));
    assert!(!contains_arg(&args, "--rust"));
    assert_eq!(as_strs(&args), vec!["a", "--rustc", "b", "--rustc"]);
}
