//! The driver's start-up decisions: which sysroot to use, whether the
//! invocation is a `--rustc` pass-through, an informational request, or a
//! compilation with or without Marker's lint pass.

use vstd::prelude::*;
use vstd::string::*;
use crate::cli::{
    arg_candidates, arg_value, as_strs, contains_arg, first_index, has_arg_value, has_sys_root_arg, position_of,
    rejected, strings_view,
};
use crate::paths::{file_stem, std_file_stem, toolchain_dir, toolchain_path};
use crate::text::str_eq;

verus! {

/// What the driver does once it has read its command line.
#[derive(Debug, PartialEq, Eq)]
pub enum DriverAction {
    /// `--rustc` was given: run plain rustc with these arguments.
    RunRustc(Vec<String>),
    /// `--version` or `-V`: print the version information.
    PrintVersion,
    /// `--toolchain`: print the toolchain and API versions.
    PrintToolchain,
    /// `--help` or `-h` outside of wrapper mode: print the help text.
    PrintHelp,
    /// Compile with these arguments, without Marker's lint pass.
    RunDefault(Vec<String>),
    /// Compile with Marker's lint pass; the lint crates are still to be read
    /// and their `--cfg` flags added (see [`marker_args`]).
    RunMarker(Vec<String>),
}

/// The mathematical model of a [`DriverAction`].
pub enum ActionModel {
    RunRustc(Seq<Seq<char>>),
    PrintVersion,
    PrintToolchain,
    PrintHelp,
    RunDefault(Seq<Seq<char>>),
    RunMarker(Seq<Seq<char>>),
}

impl View for DriverAction {
    type V = ActionModel;

    open spec fn view(&self) -> ActionModel {
        match self {
            DriverAction::RunRustc(a) => ActionModel::RunRustc(strings_view(a@)),
            DriverAction::PrintVersion => ActionModel::PrintVersion,
            DriverAction::PrintToolchain => ActionModel::PrintToolchain,
            DriverAction::PrintHelp => ActionModel::PrintHelp,
            DriverAction::RunDefault(a) => ActionModel::RunDefault(strings_view(a@)),
            DriverAction::RunMarker(a) => ActionModel::RunMarker(strings_view(a@)),
        }
    }
}

/// The crate is a dependency compiled with `--cap-lints allow` (and no
/// `--force-warn` overrides it).
pub open spec fn cap_lints_allow(args: Seq<Seq<char>>) -> bool {
    &&& arg_candidates(args, "--cap-lints"@, 0).contains("allow"@)
    &&& !has_arg_value(args, "--force-warn"@)
}

/// Marker runs on the main crate, not on dependencies, and, with `--no-deps`,
/// only on the primary package.
pub open spec fn marker_enabled(args: Seq<Seq<char>>, in_primary_package: bool) -> bool {
    !cap_lints_allow(args) && (!args.contains("--no-deps"@) || in_primary_package)
}

/// The decision the driver takes on the arguments `args` (the sysroot already
/// added), whether `CARGO_PRIMARY_PACKAGE` is set, and whether it runs as a
/// `RUSTC_WRAPPER` (its second argument names rustc).
pub open spec fn plan_model(args: Seq<Seq<char>>, in_primary_package: bool, wrapper_mode: bool) -> ActionModel {
    if args.contains("--rustc"@) {
        ActionModel::RunRustc(args.remove(first_index(args, "--rustc"@)).update(0, "rustc"@))
    } else if args.contains("--version"@) || args.contains("-V"@) {
        ActionModel::PrintVersion
    } else if args.contains("--toolchain"@) {
        ActionModel::PrintToolchain
    } else {
        let rest = if wrapper_mode { args.remove(1) } else { args };
        if !wrapper_mode && (rest.contains("--help"@) || rest.contains("-h"@)) {
            ActionModel::PrintHelp
        } else if marker_enabled(rest, in_primary_package) {
            ActionModel::RunMarker(rest)
        } else {
            ActionModel::RunDefault(rest)
        }
    }
}

/// The arguments a decision can be taken on: removing a leading `--rustc`
/// must leave the program name in place.
pub open spec fn plan_args_ok(args: Seq<Seq<char>>) -> bool {
    args.len() >= 2 || !args.contains("--rustc"@)
}

/// `--cap-lints allow` given without `--force-warn`.
fn is_cap_lints_allow(args: &Vec<String>) -> (r: bool)
    ensures
        r == cap_lints_allow(strings_view(args@)),
{
    let strs = as_strs(args);
    let is_allow = |v: &str| -> (b: bool)
        ensures
            b == (v@ == "allow"@),
        { str_eq(v, "allow") };
    let any = |_s: &str| -> (b: bool)
        ensures
            b,
        { true };
    let allow = arg_value(strs.as_slice(), "--cap-lints", is_allow);
    let force = arg_value(strs.as_slice(), "--force-warn", any);
    proof {
        let view = strings_view(args@);
        let c = arg_candidates(view, "--cap-lints"@, 0);
        let f = arg_candidates(view, "--force-warn"@, 0);
        if allow.is_some() {
            let k = choose|k: int|
                0 <= k < c.len() && c[k] == allow.unwrap()@ && call_ensures(is_allow, (allow.unwrap(),), true)
                    && forall|j: int| 0 <= j < k ==> rejected(is_allow, #[trigger] c[j]);
            assert(c[k] == "allow"@);
            assert(c.contains("allow"@));
        } else {
            if c.contains("allow"@) {
                let k = choose|k: int| 0 <= k < c.len() && c[k] == "allow"@;
                assert(rejected(is_allow, c[k]));
            }
        }
        if force.is_none() && f.len() > 0 {
            assert(rejected(any, f[0]));
        }
    }
    allow.is_some() && force.is_none()
}

/// The decision of the driver, given whether it runs in wrapper mode.
pub fn plan_with_wrapper_mode(args: Vec<String>, in_primary_package: bool, wrapper_mode: bool) -> (r: DriverAction)
    requires
        plan_args_ok(strings_view(args@)),
        wrapper_mode ==> args@.len() > 1,
    ensures
        r@ == plan_model(strings_view(args@), in_primary_package, wrapper_mode),
{
    let ghost view = strings_view(args@);
    let mut args = args;
    if let Some(pos) = position_of(&args, "--rustc") {
        args.remove(pos);
        proof {
            assert(strings_view(args@) =~= view.remove(pos as int));
        }
        args.set(0, String::from_str("rustc"));
        proof {
            reveal_strlit("rustc");
            assert(strings_view(args@) =~= view.remove(pos as int).update(0, "rustc"@));
        }
        return DriverAction::RunRustc(args);
    }
    if contains_arg(&args, "--version") || contains_arg(&args, "-V") {
        return DriverAction::PrintVersion;
    }
    if contains_arg(&args, "--toolchain") {
        return DriverAction::PrintToolchain;
    }
    if wrapper_mode {
        args.remove(1);
        assert(strings_view(args@) =~= view.remove(1));
    }
    if !wrapper_mode && (contains_arg(&args, "--help") || contains_arg(&args, "-h")) {
        return DriverAction::PrintHelp;
    }
    let cap_allow = is_cap_lints_allow(&args);
    let no_deps = contains_arg(&args, "--no-deps");
    if !cap_allow && (!no_deps || in_primary_package) {
        DriverAction::RunMarker(args)
    } else {
        DriverAction::RunDefault(args)
    }
}

/// The driver runs as `RUSTC_WRAPPER` when its second argument names rustc.
pub open spec fn wrapper_mode_consistent(args: Seq<Seq<char>>, wrapper_mode: bool) -> bool {
    &&& args.len() <= 1 ==> !wrapper_mode
    &&& args.len() > 1 && crate::paths::known_path(args[1])
        ==> (wrapper_mode <==> crate::paths::file_stem_of(args[1]) == Some("rustc"@))
}

/// The decision of the driver on its arguments `args` (the sysroot already
/// added) and whether `CARGO_PRIMARY_PACKAGE` is set. Wrapper mode is detected
/// from the file stem of the second argument.
pub fn plan(args: Vec<String>, in_primary_package: bool) -> (r: DriverAction)
    requires
        plan_args_ok(strings_view(args@)),
    ensures
        exists|wrapper_mode: bool|
            wrapper_mode_consistent(strings_view(args@), wrapper_mode)
                && r@ == plan_model(strings_view(args@), in_primary_package, wrapper_mode),
{
    let ghost view = strings_view(args@);
    let wrapper_mode = if args.len() > 1 {
        let arg1 = args[1].as_str();
        let stem = file_stem(arg1);
        match stem {
            Some(stem) => str_eq(stem, "rustc"),
            None => false,
        }
    } else {
        false
    };
    assert(wrapper_mode_consistent(view, wrapper_mode));
    plan_with_wrapper_mode(args, in_primary_package, wrapper_mode)
}


/// The `--cfg` flag that announces the lint crate `name` to the compiled crate.
pub open spec fn cfg_marker_flag(name: Seq<char>) -> Seq<char> {
    "--cfg=marker=\""@ + name + "\""@
}

/// The compiler arguments with Marker's `--cfg` flags: a plain `marker` flag
/// for the common case and one `marker="name"` flag per lint crate.
pub open spec fn marker_args_model(args: Seq<Seq<char>>, names: Seq<Seq<char>>) -> Seq<Seq<char>> {
    args + seq!["--cfg=marker"@] + names.map_values(|n: Seq<char>| cfg_marker_flag(n))
}

/// The decisions of the `marker_driver_rustc` driver, which differ in three
/// points: the toolchain is only printed outside wrapper mode, after the help
/// text has been considered, and no `--cfg` flags are added for lint crates.
pub open spec fn plan_driver_rustc_model(args: Seq<Seq<char>>, in_primary_package: bool, wrapper_mode: bool) -> ActionModel {
    if args.contains("--rustc"@) {
        ActionModel::RunRustc(args.remove(first_index(args, "--rustc"@)).update(0, "rustc"@))
    } else if args.contains("--version"@) || args.contains("-V"@) {
        ActionModel::PrintVersion
    } else {
        let rest = if wrapper_mode { args.remove(1) } else { args };
        if !wrapper_mode && (rest.contains("--help"@) || rest.contains("-h"@)) {
            ActionModel::PrintHelp
        } else if !wrapper_mode && rest.contains("--toolchain"@) {
            ActionModel::PrintToolchain
        } else if marker_enabled(rest, in_primary_package) {
            ActionModel::RunMarker(rest)
        } else {
            ActionModel::RunDefault(rest)
        }
    }
}

/// The decision of the `marker_driver_rustc` driver, given whether it runs in
/// wrapper mode.
pub fn plan_driver_rustc_with_wrapper_mode(args: Vec<String>, in_primary_package: bool, wrapper_mode: bool) -> (r: DriverAction)
    requires
        plan_args_ok(strings_view(args@)),
        wrapper_mode ==> args@.len() > 1,
    ensures
        r@ == plan_driver_rustc_model(strings_view(args@), in_primary_package, wrapper_mode),
{
    let ghost view = strings_view(args@);
    let mut args = args;
    if let Some(pos) = position_of(&args, "--rustc") {
        args.remove(pos);
        proof {
            assert(strings_view(args@) =~= view.remove(pos as int));
        }
        args.set(0, String::from_str("rustc"));
        proof {
            reveal_strlit("rustc");
            assert(strings_view(args@) =~= view.remove(pos as int).update(0, "rustc"@));
        }
        return DriverAction::RunRustc(args);
    }
    if contains_arg(&args, "--version") || contains_arg(&args, "-V") {
        return DriverAction::PrintVersion;
    }
    if wrapper_mode {
        args.remove(1);
        assert(strings_view(args@) =~= view.remove(1));
    }
    if !wrapper_mode {
        if contains_arg(&args, "--help") || contains_arg(&args, "-h") {
            return DriverAction::PrintHelp;
        }
        if contains_arg(&args, "--toolchain") {
            return DriverAction::PrintToolchain;
        }
    }
    let cap_allow = is_cap_lints_allow(&args);
    let no_deps = contains_arg(&args, "--no-deps");
    if !cap_allow && (!no_deps || in_primary_package) {
        DriverAction::RunMarker(args)
    } else {
        DriverAction::RunDefault(args)
    }
}

/// The decision of the `marker_driver_rustc` driver on its arguments `args`
/// (the sysroot already added) and whether `CARGO_PRIMARY_PACKAGE` is set.
/// Wrapper mode is detected from the file stem of the second argument, as
/// `std::path::Path` reads it.
pub fn plan_driver_rustc(args: Vec<String>, in_primary_package: bool) -> (r: DriverAction)
    requires
        plan_args_ok(strings_view(args@)),
    ensures
        exists|wrapper_mode: bool|
            wrapper_mode_consistent(strings_view(args@), wrapper_mode)
                && r@ == plan_driver_rustc_model(strings_view(args@), in_primary_package, wrapper_mode),
{
    let ghost view = strings_view(args@);
    let wrapper_mode = if args.len() > 1 {
        let arg1 = args[1].as_str();
        let stem = std_file_stem(arg1);
        match stem {
            Some(stem) => str_eq(stem, "rustc"),
            None => false,
        }
    } else {
        false
    };
    assert(wrapper_mode_consistent(view, wrapper_mode));
    plan_driver_rustc_with_wrapper_mode(args, in_primary_package, wrapper_mode)
}

/// Adds Marker's `--cfg` flags for the lint crates named `names` to `args`.
pub fn marker_args(args: Vec<String>, names: &Vec<String>) -> (r: Vec<String>)
    ensures
        strings_view(r@) == marker_args_model(strings_view(args@), strings_view(names@)),
{
    let mut args = args;
    let ghost base = strings_view(args@);
    args.push(String::from_str("--cfg=marker"));
    let n = names.len();
    let mut i: usize = 0;
    while i < n
        invariant
            n == names@.len(),
            i <= n,
            strings_view(args@) == base + seq!["--cfg=marker"@]
                + strings_view(names@).take(i as int).map_values(|m: Seq<char>| cfg_marker_flag(m)),
        decreases n - i,
    {
        let mut flag = String::from_str("--cfg=marker=\"");
        flag.append(names[i].as_str());
        flag.append("\"");
        let ghost before = strings_view(args@);
        args.push(flag);
        proof {
            let t = strings_view(names@);
            assert(t.take(i + 1) =~= t.take(i as int).push(t[i as int]));
            assert(t.take(i + 1).map_values(|m: Seq<char>| cfg_marker_flag(m))
                =~= t.take(i as int).map_values(|m: Seq<char>| cfg_marker_flag(m)).push(cfg_marker_flag(t[i as int])));
            assert(strings_view(args@) =~= before.push(flag@));
        }
        i = i + 1;
    }
    proof {
        assert(strings_view(names@).take(n as int) =~= strings_view(names@));
    }
    args
}

/// The driver's arguments with a sysroot: unchanged when `--sysroot` is given
/// a value, else followed by `--sysroot` and the sysroot that
/// `find_sys_root` finds, which is only asked for then.
pub fn with_sys_root<F: FnOnce() -> String>(args: Vec<String>, find_sys_root: F) -> (r: Vec<String>)
    requires
        call_requires(find_sys_root, ()),
    ensures
        has_arg_value(strings_view(args@), "--sysroot"@) ==> strings_view(r@) == strings_view(args@),
        !has_arg_value(strings_view(args@), "--sysroot"@) ==> exists|s: String|
            call_ensures(find_sys_root, (), s) && strings_view(r@) == strings_view(args@) + seq![
                "--sysroot"@,
                s@,
            ],
{
    let has = {
        let strs = as_strs(&args);
        has_sys_root_arg(strs.as_slice())
    };
    if has {
        return args;
    }
    let ghost before = strings_view(args@);
    let sys_root = find_sys_root();
    let mut args = args;
    args.push(String::from_str("--sysroot"));
    let ghost root = sys_root@;
    args.push(sys_root);
    proof {
        reveal_strlit("--sysroot");
        assert(strings_view(args@) =~= before + seq!["--sysroot"@, root]);
    }
    args
}

/// The sysroot settings read from an environment (at run time or at compile time).
pub struct SysRootEnv {
    /// `SYSROOT`
    pub sysroot: Option<String>,
    /// `RUSTUP_HOME`
    pub rustup_home: Option<String>,
    /// `MULTIRUST_HOME`
    pub multirust_home: Option<String>,
    /// `RUSTUP_TOOLCHAIN`
    pub rustup_toolchain: Option<String>,
    /// `MULTIRUST_TOOLCHAIN`
    pub multirust_toolchain: Option<String>,
}

/// The first of `a` and `b` that is set.
pub open spec fn or_opt(a: Option<String>, b: Option<String>) -> Option<String> {
    if a.is_some() { a } else { b }
}

/// The sysroot an environment names: `SYSROOT` when set, else the toolchain
/// directory under the rustup (or multirust) home.
pub fn sys_root_from_env(env: SysRootEnv) -> (r: Option<String>)
    ensures
        env.sysroot.is_some() ==> r == env.sysroot,
        env.sysroot.is_none() ==> ({
            let home = or_opt(env.rustup_home, env.multirust_home);
            let toolchain = or_opt(env.rustup_toolchain, env.multirust_toolchain);
            &&& r.is_some() == (home.is_some() && toolchain.is_some())
            &&& r matches Some(p) ==> toolchain_dir(home.unwrap()@, toolchain.unwrap()@, p@)
        }),
{
    match env.sysroot {
        Some(s) => Some(s),
        None => {
            let home = match env.rustup_home {
                Some(h) => Some(h),
                None => env.multirust_home,
            };
            let toolchain = match env.rustup_toolchain {
                Some(t) => Some(t),
                None => env.multirust_toolchain,
            };
            toolchain_path(home, toolchain)
        },
    }
}


/// `--rustc` hands everything to plain rustc: the first `--rustc` is removed
/// and the program name becomes `rustc`, whatever else the arguments hold and
/// in both drivers.
pub proof fn law_rustc_passthrough(args: Seq<Seq<char>>, in_primary_package: bool, wrapper_mode: bool)
    requires
        args.contains("--rustc"@),
    ensures
        ({
            let expected = ActionModel::RunRustc(args.remove(first_index(args, "--rustc"@)).update(0, "rustc"@));
            &&& plan_model(args, in_primary_package, wrapper_mode) == expected
            &&& plan_driver_rustc_model(args, in_primary_package, wrapper_mode) == expected
        }),
{
}

/// Marker's lint pass runs only on crates that are linted: never on a
/// dependency whose lints are capped to `allow`, and with `--no-deps` only on
/// the primary package. Every compilation without it is one where it is off.
pub proof fn law_marker_only_on_linted_crates(args: Seq<Seq<char>>, in_primary_package: bool, wrapper_mode: bool)
    ensures
        plan_model(args, in_primary_package, wrapper_mode) matches ActionModel::RunMarker(rest)
            ==> marker_enabled(rest, in_primary_package),
        plan_model(args, in_primary_package, wrapper_mode) matches ActionModel::RunDefault(rest)
            ==> !marker_enabled(rest, in_primary_package),
        plan_driver_rustc_model(args, in_primary_package, wrapper_mode) matches ActionModel::RunMarker(rest)
            ==> marker_enabled(rest, in_primary_package),
        plan_driver_rustc_model(args, in_primary_package, wrapper_mode) matches ActionModel::RunDefault(rest)
            ==> !marker_enabled(rest, in_primary_package),
{
}

/// A compilation gets the driver's arguments unchanged, except for the path
/// of rustc, which is dropped in wrapper mode.
pub proof fn law_compiler_args_kept(args: Seq<Seq<char>>, in_primary_package: bool, wrapper_mode: bool)
    ensures
        ({
            let expected = if wrapper_mode { args.remove(1) } else { args };
            &&& plan_model(args, in_primary_package, wrapper_mode) matches ActionModel::RunMarker(a) ==> a == expected
            &&& plan_model(args, in_primary_package, wrapper_mode) matches ActionModel::RunDefault(a) ==> a == expected
            &&& plan_driver_rustc_model(args, in_primary_package, wrapper_mode) matches ActionModel::RunMarker(a)
                ==> a == expected
            &&& plan_driver_rustc_model(args, in_primary_package, wrapper_mode) matches ActionModel::RunDefault(a)
                ==> a == expected
        }),
{
}

/// As `RUSTC_WRAPPER` the driver never prints its help text: `--help` and
/// `-h` then belong to the compiled crate's command line.
pub proof fn law_wrapper_mode_never_prints_help(args: Seq<Seq<char>>, in_primary_package: bool)
    ensures
        !(plan_model(args, in_primary_package, true) is PrintHelp),
        !(plan_driver_rustc_model(args, in_primary_package, true) is PrintHelp),
{
}

/// The `--cfg` flags are appended: the compiler arguments stay in front, then
/// the plain `marker` flag, then one flag per lint crate, in order.
pub proof fn law_marker_args_layout(args: Seq<Seq<char>>, names: Seq<Seq<char>>)
    ensures
        ({
            let r = marker_args_model(args, names);
            &&& r.len() == args.len() + 1 + names.len()
            &&& r.take(args.len() as int) == args
            &&& r[args.len() as int] == "--cfg=marker"@
            &&& forall|i: int| 0 <= i < names.len() ==> #[trigger] r[args.len() + 1 + i] == cfg_marker_flag(names[i])
        }),
{
    let r = marker_args_model(args, names);
    assert(r.take(args.len() as int) =~= args);
}


/// `--version` and `-V` print the version: whenever either is among the
/// arguments and `--rustc` is not, both drivers decide to print the version,
/// in and out of wrapper mode.
pub proof fn law_version_flags_print_the_version(args: Seq<Seq<char>>, in_primary_package: bool, wrapper_mode: bool)
    requires
        !args.contains("--rustc"@),
    ensures
        args.contains("--version"@) ==> plan_model(args, in_primary_package, wrapper_mode) == ActionModel::PrintVersion,
        args.contains("-V"@) ==> plan_model(args, in_primary_package, wrapper_mode) == ActionModel::PrintVersion,
        args.contains("--version"@) ==> plan_driver_rustc_model(args, in_primary_package, wrapper_mode)
            == ActionModel::PrintVersion,
        args.contains("-V"@) ==> plan_driver_rustc_model(args, in_primary_package, wrapper_mode)
            == ActionModel::PrintVersion,
        !args.contains("--version"@) && !args.contains("-V"@) ==> plan_model(args, in_primary_package, wrapper_mode)
            != ActionModel::PrintVersion,
        !args.contains("--version"@) && !args.contains("-V"@) ==> plan_driver_rustc_model(
            args,
            in_primary_package,
            wrapper_mode,
        ) != ActionModel::PrintVersion,
{
}

/// `--toolchain` prints the toolchain. The `marker_rustc_driver` driver does
/// so whenever it is given and neither `--rustc` nor a version flag is; the
/// `marker_driver_rustc` driver only outside wrapper mode and when no help
/// flag is given, and never in wrapper mode.
pub proof fn law_toolchain_flag_prints_the_toolchain(args: Seq<Seq<char>>, in_primary_package: bool, wrapper_mode: bool)
    requires
        !args.contains("--rustc"@),
        !args.contains("--version"@),
        !args.contains("-V"@),
    ensures
        args.contains("--toolchain"@) ==> plan_model(args, in_primary_package, wrapper_mode)
            == ActionModel::PrintToolchain,
        !args.contains("--toolchain"@) ==> plan_model(args, in_primary_package, wrapper_mode)
            != ActionModel::PrintToolchain,
        !wrapper_mode && args.contains("--toolchain"@) && !args.contains("--help"@) && !args.contains("-h"@)
            ==> plan_driver_rustc_model(args, in_primary_package, wrapper_mode) == ActionModel::PrintToolchain,
        wrapper_mode ==> plan_driver_rustc_model(args, in_primary_package, wrapper_mode)
            != ActionModel::PrintToolchain,
{
}

/// `--help` and `-h` print the help text outside wrapper mode, unless an
/// earlier decision (`--rustc`, a version flag, and for `marker_rustc_driver`
/// also `--toolchain`) takes precedence.
pub proof fn law_help_flags_print_the_help(args: Seq<Seq<char>>, in_primary_package: bool)
    requires
        !args.contains("--rustc"@),
        !args.contains("--version"@),
        !args.contains("-V"@),
        args.contains("--help"@) || args.contains("-h"@),
    ensures
        !args.contains("--toolchain"@) ==> plan_model(args, in_primary_package, false) == ActionModel::PrintHelp,
        plan_driver_rustc_model(args, in_primary_package, false) == ActionModel::PrintHelp,
{
}

/// Without any of the driver's own flags the crate is compiled: with
/// Marker's lint pass exactly when its lints are not capped to `allow`
/// (without a `--force-warn`) and, given `--no-deps`, the crate is the
/// primary package.
pub proof fn law_plain_arguments_compile(args: Seq<Seq<char>>, in_primary_package: bool)
    requires
        !args.contains("--rustc"@),
        !args.contains("--version"@),
        !args.contains("-V"@),
        !args.contains("--toolchain"@),
        !args.contains("--help"@),
        !args.contains("-h"@),
    ensures
        ({
            let capped = arg_candidates(args, "--cap-lints"@, 0).contains("allow"@)
                && arg_candidates(args, "--force-warn"@, 0).len() == 0;
            let on = !capped && (!args.contains("--no-deps"@) || in_primary_package);
            &&& on ==> plan_model(args, in_primary_package, false) == ActionModel::RunMarker(args)
            &&& !on ==> plan_model(args, in_primary_package, false) == ActionModel::RunDefault(args)
            &&& on ==> plan_driver_rustc_model(args, in_primary_package, false) == ActionModel::RunMarker(args)
            &&& !on ==> plan_driver_rustc_model(args, in_primary_package, false) == ActionModel::RunDefault(args)
        }),
{
}

/// Each lint crate `name` is announced by the flag `--cfg=marker="name"`,
/// after the plain `--cfg=marker`.
pub proof fn law_marker_cfg_flags_name_the_lint_crates(args: Seq<Seq<char>>, names: Seq<Seq<char>>, i: int)
    requires
        0 <= i < names.len(),
    ensures
        marker_args_model(args, names)[args.len() + 1 + i] == "--cfg=marker=\""@ + names[i] + "\""@,
        marker_args_model(args, names)[args.len() as int] == "--cfg=marker"@,
{
}

} // verus!
