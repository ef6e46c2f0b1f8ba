//! Lint levels and lint declarations as seen by Marker's API and by rustc.

use vstd::prelude::*;

verus! {

/// A lint level of Marker's API.
#[derive(Clone, Copy, Debug, PartialEq, Eq, Structural)]
pub enum Level {
    Allow,
    Warn,
    Deny,
    Forbid,
}

/// A lint level of rustc. The expectation ids of `Expect` and `ForceWarn`
/// play no part in the conversion and are left out.
#[derive(Clone, Copy, Debug, PartialEq, Eq, Structural)]
pub enum RustcLevel {
    Allow,
    Expect,
    Warn,
    ForceWarn,
    Deny,
    Forbid,
}

/// The API level that a rustc level is reported as.
pub open spec fn api_level_of(level: RustcLevel) -> Level {
    match level {
        RustcLevel::Allow => Level::Allow,
        RustcLevel::Warn | RustcLevel::ForceWarn | RustcLevel::Expect => Level::Warn,
        RustcLevel::Deny => Level::Deny,
        RustcLevel::Forbid => Level::Forbid,
    }
}

/// The rustc level that an API level is registered as.
pub open spec fn rustc_level_of(level: Level) -> RustcLevel {
    match level {
        Level::Allow => RustcLevel::Allow,
        Level::Warn => RustcLevel::Warn,
        Level::Deny => RustcLevel::Deny,
        Level::Forbid => RustcLevel::Forbid,
    }
}

/// The severity of an API level, from `Allow` (0) to `Forbid` (3).
pub open spec fn severity(level: Level) -> int {
    match level {
        Level::Allow => 0,
        Level::Warn => 1,
        Level::Deny => 2,
        Level::Forbid => 3,
    }
}

/// The API level of a lint level that rustc computed.
pub fn to_lint_level(level: RustcLevel) -> (r: Level)
    ensures
        r == api_level_of(level),
{
    match level {
        RustcLevel::Allow => Level::Allow,
        RustcLevel::Warn | RustcLevel::ForceWarn | RustcLevel::Expect => Level::Warn,
        RustcLevel::Deny => Level::Deny,
        RustcLevel::Forbid => Level::Forbid,
    }
}

/// The level of a lint at a node: the level rustc computes there when the
/// node has a rustc `HirId` (`level_at_node`), and `Allow` otherwise.
pub open spec fn level_at_of(level_at_node: Option<RustcLevel>) -> Level {
    match level_at_node {
        Some(level) => api_level_of(level),
        None => Level::Allow,
    }
}

/// The level of a lint at a node: the level rustc computes there when the
/// node has a rustc `HirId` (`level_at_node`), and `Allow` otherwise.
pub fn lint_level_at(level_at_node: Option<RustcLevel>) -> (r: Level)
    ensures
        r == level_at_of(level_at_node),
{
    match level_at_node {
        Some(level) => to_lint_level(level),
        None => Level::Allow,
    }
}

/// The rustc level of an API level.
pub fn to_rustc_lint_level(level: Level) -> (r: RustcLevel)
    ensures
        r == rustc_level_of(level),
{
    match level {
        Level::Allow => RustcLevel::Allow,
        Level::Warn => RustcLevel::Warn,
        Level::Deny => RustcLevel::Deny,
        Level::Forbid => RustcLevel::Forbid,
    }
}

/// An API level registered with rustc is reported back unchanged.
pub proof fn law_level_round_trip(level: Level)
    ensures
        api_level_of(rustc_level_of(level)) == level,
{
}

/// Every rustc level is reported as the API level it registers as, except for
/// `Expect` and `ForceWarn`, which are reported as warnings.
pub proof fn law_rustc_level_round_trip(level: RustcLevel)
    ensures
        level != RustcLevel::Expect && level != RustcLevel::ForceWarn
            ==> rustc_level_of(api_level_of(level)) == level,
        level == RustcLevel::Expect || level == RustcLevel::ForceWarn
            ==> api_level_of(level) == Level::Warn,
{
}

/// Where a lint reports in macros.
#[derive(Clone, Copy, Debug, PartialEq, Eq, Structural)]
pub enum MacroReport {
    /// Not in macros.
    No,
    /// Only in macros of the local crate.
    Local,
    /// In all macros, also external ones.
    All,
}

/// A lint declared through Marker's API.
#[derive(Debug)]
pub struct Lint {
    pub name: String,
    pub default_level: Level,
    pub explanation: String,
    pub report_in_macro: MacroReport,
}

/// The lint that is registered with rustc for an API lint.
#[derive(Debug)]
pub struct RustcLint {
    pub name: String,
    pub default_level: RustcLevel,
    pub desc: String,
    pub report_in_external_macro: bool,
    /// Lints of lint crates are always plugin lints.
    pub is_plugin: bool,
    /// Marker's lints can be set on any node.
    pub crate_level_only: bool,
}

/// The rustc lint for an API lint: same name and description, the level
/// mapped by [`rustc_level_of`], reported in external macros only for
/// [`MacroReport::All`], always a plugin lint and never crate-level only.
pub fn to_rustc_lint(api_lint: &Lint) -> (r: RustcLint)
    ensures
        r.name@ == api_lint.name@,
        r.desc@ == api_lint.explanation@,
        r.default_level == rustc_level_of(api_lint.default_level),
        r.report_in_external_macro == (api_lint.report_in_macro == MacroReport::All),
        r.is_plugin,
        !r.crate_level_only,
{
    let report_in_external_macro = match api_lint.report_in_macro {
        MacroReport::No | MacroReport::Local => false,
        MacroReport::All => true,
    };
    RustcLint {
        name: api_lint.name.clone(),
        default_level: to_rustc_lint_level(api_lint.default_level),
        desc: api_lint.explanation.clone(),
        report_in_external_macro,
        is_plugin: true,
        crate_level_only: false,
    }
}


/// Levels keep their names between rustc and the API: `allow` is `Allow`,
/// `warn`, `force-warn` and `expect` are reported as `Warn`, `deny` is `Deny`
/// and `forbid` is `Forbid`; each API level is registered as the rustc level
/// of the same name; a node rustc knows nothing of is allowed.
pub proof fn law_levels_keep_their_names(level: RustcLevel)
    ensures
        api_level_of(RustcLevel::Allow) == Level::Allow,
        api_level_of(RustcLevel::Warn) == Level::Warn,
        api_level_of(RustcLevel::ForceWarn) == Level::Warn,
        api_level_of(RustcLevel::Expect) == Level::Warn,
        api_level_of(RustcLevel::Deny) == Level::Deny,
        api_level_of(RustcLevel::Forbid) == Level::Forbid,
        rustc_level_of(Level::Allow) == RustcLevel::Allow,
        rustc_level_of(Level::Warn) == RustcLevel::Warn,
        rustc_level_of(Level::Deny) == RustcLevel::Deny,
        rustc_level_of(Level::Forbid) == RustcLevel::Forbid,
        level_at_of(None) == Level::Allow,
        level_at_of(Some(level)) == api_level_of(level),
        severity(Level::Allow) < severity(Level::Warn) < severity(Level::Deny) < severity(Level::Forbid),
{
}

} // verus!
