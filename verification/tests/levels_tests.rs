use marker_driver::levels::{lint_level_at, to_lint_level, to_rustc_lint, to_rustc_lint_level, Level, Lint, MacroReport, RustcLevel};

#[test]
fn lint_level_mapping() {
    assert_eq!(to_lint_level(RustcLevel::Allow), Level::Allow);
    assert_eq!(to_lint_level(RustcLevel::Expect), Level::Warn);
    assert_eq!(to_lint_level(RustcLevel::Warn), Level::Warn);
    assert_eq!(to_lint_level(RustcLevel::ForceWarn), Level::Warn);
    assert_eq!(to_lint_level(RustcLevel::Deny), Level::Deny);
    assert_eq!(to_lint_level(RustcLevel::Forbid), Level::Forbid);
    for level in [Level::Allow, Level::Warn, Level::Deny, Level::Forbid] {
        assert_eq!(to_lint_level(to_rustc_lint_level(level)), level);
    }
    assert_eq!(to_rustc_lint_level(Level::Deny), RustcLevel::Deny);
}

#[test]
fn registered_lints() {
    let lint = Lint {
        name: "marker_lints::diag_msg_uppercase_start".to_string(),
        default_level: Level::Warn,
        explanation: "messages start lower case".to_string(),
        report_in_macro: MacroReport::All,
    };
    let rustc = to_rustc_lint(&lint);
    assert_eq!(rustc.name, lint.name);
    assert_eq!(rustc.desc, lint.explanation);
    assert_eq!(rustc.default_level, RustcLevel::Warn);
    assert!(rustc.report_in_external_macro);
    assert!(rustc.is_plugin);
    assert!(!rustc.crate_level_only);

    for report in [MacroReport::No, MacroReport::Local] {
        let lint = Lint { report_in_macro: report, default_level: Level::Allow, ..lint_named("x") };
        let rustc = to_rustc_lint(&lint);
        assert!(!rustc.report_in_external_macro);
        assert_eq!(rustc.default_level, RustcLevel::Allow);
    }
}

fn lint_named(name: &str) -> Lint {
    Lint {
        name: name.to_string(),
        default_level: Level::Warn,
        explanation: String::new(),
        report_in_macro: MacroReport::No,
    }
}

#[test]
fn levels_at_nodes() {
    assert_eq!(lint_level_at(Some(RustcLevel::Deny)), Level::Deny);
    assert_eq!(lint_level_at(Some(RustcLevel::ForceWarn)), Level::Warn);
    assert_eq!(lint_level_at(None), Level::Allow);
}
