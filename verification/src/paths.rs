//! Paths through `camino`: the toolchain directory and file stems.

use vstd::prelude::*;
use camino::{Utf8Path, Utf8PathBuf};

verus! {

/// `c` separates path components on some platform (`/` everywhere, `\` on
/// Windows).
pub open spec fn is_separator(c: char) -> bool {
    c == '/' || c == '\\'
}

/// `part` holds no separator and no `:`, so that no platform reads a root or
/// a prefix in it: pushing it appends it as a relative path. Dots are allowed.
pub open spec fn relative_name(part: Seq<char>) -> bool {
    forall|i: int| 0 <= i < part.len() ==> !is_separator(part[i]) && part[i] != ':'
}

/// `s` starts with two separators, which Windows reads as the start of a UNC,
/// device or verbatim prefix.
pub open spec fn starts_with_two_separators(s: Seq<char>) -> bool {
    s.len() >= 2 && is_separator(s[0]) && is_separator(s[1])
}

/// `part` is an absolute name that every platform reads the same way: it
/// starts with one `/` (not two), and holds no `\` and no `:`, so that no
/// platform reads a prefix in it.
pub open spec fn absolute_name(part: Seq<char>) -> bool {
    &&& part.len() > 0
    &&& part[0] == '/'
    &&& !starts_with_two_separators(part)
    &&& forall|i: int| 0 <= i < part.len() ==> part[i] != '\\' && part[i] != ':'
}

/// `s` has no prefix on any platform: it does not start with two separators
/// (a UNC, device or verbatim prefix on Windows) and its second character is
/// not `:` (a drive prefix on Windows).
pub open spec fn no_prefix(s: Seq<char>) -> bool {
    &&& !starts_with_two_separators(s)
    &&& !(s.len() >= 2 && s[1] == ':')
}

/// `s` is a bare drive prefix such as `C:`.
pub open spec fn bare_drive(s: Seq<char>) -> bool {
    &&& s.len() == 2
    &&& s[1] == ':'
    &&& (('a' <= s[0] && s[0] <= 'z') || ('A' <= s[0] && s[0] <= 'Z'))
}

/// `r` is what pushing the relative name `part` onto `base` gives: `part`
/// appended directly when `base` is empty or ends in `/`; when `base` ends in
/// `\` or is a bare drive prefix, appended directly (Windows) or after a `/`
/// (elsewhere); in every other case appended after exactly one separator,
/// the platform's (`/`, or `\` on Windows).
pub open spec fn pushed(base: Seq<char>, part: Seq<char>, r: Seq<char>) -> bool {
    if base.len() == 0 || base.last() == '/' {
        r == base + part
    } else if base.last() == '\\' || bare_drive(base) {
        r == base + part || r == base + seq!['/'] + part
    } else {
        r == base + seq!['/'] + part || r == base + seq!['\\'] + part
    }
}

/// `Utf8PathBuf::from(base)` followed by `Utf8PathBuf::push(part)`, given back
/// as a `String` by `Utf8PathBuf::into_string`. camino's `push` forwards to
/// `std::path::PathBuf::push`: a separator is added unless `base` is empty,
/// ends in a separator or is a bare drive prefix (Windows), and `part` is
/// appended. The contract states this for a [`relative_name`] pushed onto a
/// `base` that does not start with two separators. An [`absolute_name`]
/// pushed onto a `base` without a prefix replaces it: the result is `part`
/// (elsewhere `part` is absolute; on Windows it has a root, which replaces all
/// but the prefix of `base`, and there is none). Left unsaid: a `part` with a
/// prefix or a `\`, and a `base` with a UNC, device, verbatim or drive
/// prefix, where Windows keeps the prefix or removes `.` and `..` components.
#[verifier::external_body]
pub(crate) fn path_push(base: String, part: &str) -> (r: String)
    ensures
        relative_name(part@) && !starts_with_two_separators(base@) ==> pushed(base@, part@, r@),
        absolute_name(part@) && no_prefix(base@) ==> r@ == part@,
{
    let mut path = Utf8PathBuf::from(base);
    path.push(part);
    path.into_string()
}

/// Position of the last `c` in `s`, or `-1`.
pub open spec fn last_index_of(s: Seq<char>, c: char) -> int
    decreases s.len(),
{
    if s.len() == 0 {
        -1
    } else if s.last() == c {
        s.len() - 1
    } else {
        last_index_of(s.drop_last(), c)
    }
}

/// The text after the last `/` of `path`.
pub open spec fn last_segment(path: Seq<char>) -> Seq<char> {
    path.skip(last_index_of(path, '/') + 1)
}

/// The stem of a file name: the name cut at its last `.`, unless that dot is
/// its first character or there is none.
pub open spec fn name_stem(name: Seq<char>) -> Seq<char> {
    let i = last_index_of(name, '.');
    if i <= 0 {
        name
    } else {
        name.take(i)
    }
}

/// A path that every platform splits the same way: `/`-separated parts, no
/// `\`, no `:`, and not starting with `//`.
pub open spec fn known_path(path: Seq<char>) -> bool {
    &&& forall|i: int| 0 <= i < path.len() ==> path[i] != '\\' && path[i] != ':'
    &&& !starts_with_two_separators(path)
}

/// The file name of a known path: its last part, where trailing `/` and
/// trailing `.` parts are skipped; none when there is no such part or it is
/// `..`.
pub open spec fn file_name_of(path: Seq<char>) -> Option<Seq<char>>
    decreases path.len(),
{
    if path.len() == 0 {
        None
    } else if path.last() == '/' {
        file_name_of(path.drop_last())
    } else if path.last() == '.' && (path.len() == 1 || path[path.len() - 2] == '/') {
        file_name_of(path.drop_last())
    } else if last_segment(path) == seq!['.', '.'] {
        None
    } else {
        Some(last_segment(path))
    }
}

/// The file stem of a known path: the stem of its file name, if it has one.
pub open spec fn file_stem_of(path: Seq<char>) -> Option<Seq<char>> {
    match file_name_of(path) {
        Some(name) => Some(name_stem(name)),
        None => None,
    }
}

/// The text of an optional string slice.
pub open spec fn opt_str_view(s: Option<&str>) -> Option<Seq<char>> {
    match s {
        Some(s) => Some(s@),
        None => None,
    }
}

/// `camino::Utf8Path::file_stem` of `path`, which forwards to
/// `std::path::Path::file_stem`. For a [`known_path`] the result is
/// [`file_stem_of`] the path: std splits it into components, drops empty and
/// non-leading `.` ones, and takes the last component if it is a name. For
/// other paths (with `\`, `:` or a leading `//`, where Windows reads
/// prefixes) the contract states nothing.
#[verifier::external_body]
pub(crate) fn file_stem<'a>(path: &'a str) -> (r: Option<&'a str>)
    ensures
        known_path(path@) ==> opt_str_view(r) == file_stem_of(path@),
{
    Utf8Path::new(path).file_stem()
}

/// `std::path::Path::file_stem` of `path`, read back as a `&str` (the stem
/// of a `&str` path is valid UTF-8). As for [`file_stem`], the contract
/// states the stem of a [`known_path`].
#[verifier::external_body]
pub(crate) fn std_file_stem<'a>(path: &'a str) -> (r: Option<&'a str>)
    ensures
        known_path(path@) ==> opt_str_view(r) == file_stem_of(path@),
{
    std::path::Path::new(path).file_stem().and_then(|stem| stem.to_str())
}

/// The directory of `toolchain` under the rustup home `home`:
/// `home/toolchains/toolchain`, when both are known. For an ordinary home
/// (non-empty, not ending in a separator) and a toolchain name without
/// separators or `:`, exactly one separator stands between the three parts.
pub fn toolchain_path(home: Option<String>, toolchain: Option<String>) -> (r: Option<String>)
    ensures
        r.is_some() == (home.is_some() && toolchain.is_some()),
        r matches Some(p) ==> toolchain_dir(home.unwrap()@, toolchain.unwrap()@, p@),
{
    match (home, toolchain) {
        (Some(home), Some(toolchain)) => {
            proof {
                reveal_strlit("toolchains");
                lemma_toolchains_is_relative();
            }
            let ghost h = home@;
            let ghost t = toolchain@;
            let mid = path_push(home, "toolchains");
            let ghost m = mid@;
            let path = path_push(mid, toolchain.as_str());
            proof {
                if !starts_with_two_separators(h) {
                    assert(pushed(h, "toolchains"@, m)
                        && (relative_name(t) && !starts_with_two_separators(m) ==> pushed(m, t, path@)));
                    assert(toolchain_pushes(h, t, path@));
                }
                if ordinary_home(h) && relative_name(t) {
                    let s1 = if m == h + seq!['/'] + "toolchains"@ { '/' } else { '\\' };
                    assert(m == h + seq![s1] + "toolchains"@);
                    assert(m.len() > 10);
                    assert(m.last() == 's');
                    if h.len() >= 2 {
                        assert(m[0] == h[0] && m[1] == h[1]);
                    } else {
                        assert(m[0] == h[0]);
                    }
                    assert(!starts_with_two_separators(m));
                    assert(!bare_drive(m));
                    let s2 = if path@ == m + seq!['/'] + t { '/' } else { '\\' };
                    assert(path@ == h + seq![s1] + "toolchains"@ + seq![s2] + t);
                    assert(toolchain_separated(h, t, path@));
                }
                if absolute_name(t) && no_prefix(h) && h != seq!['\\'] {
                    lemma_pushed_keeps_no_prefix(h, "toolchains"@, m);
                    assert(path@ == t);
                }
            }
            Some(path)
        },
        _ => None,
    }
}

/// `p` is `home/toolchains/toolchain` as two pushes make it (see [`pushed`]),
/// where the contract of the pushes states the result.
pub open spec fn toolchain_pushes(home: Seq<char>, toolchain: Seq<char>, p: Seq<char>) -> bool {
    exists|mid: Seq<char>|
        #![trigger pushed(home, "toolchains"@, mid)]
        pushed(home, "toolchains"@, mid)
            && (relative_name(toolchain) && !starts_with_two_separators(mid) ==> pushed(mid, toolchain, p))
}

/// `p` is `home`, `toolchains` and `toolchain`, with exactly one separator
/// between each two of them.
pub open spec fn toolchain_separated(home: Seq<char>, toolchain: Seq<char>, p: Seq<char>) -> bool {
    exists|s1: char, s2: char|
        is_separator(s1) && is_separator(s2) && p == home + seq![s1] + "toolchains"@ + seq![s2] + toolchain
}

/// The rustup toolchain directory `p` of `home` and `toolchain`: as the two
/// pushes make it when `home` does not start with two separators, and with
/// one separator between each two parts for an ordinary home and a toolchain
/// name without separators or `:` (dots allowed); an absolute toolchain
/// replaces the home when the home has no prefix.
pub open spec fn toolchain_dir(home: Seq<char>, toolchain: Seq<char>, p: Seq<char>) -> bool {
    &&& !starts_with_two_separators(home) ==> toolchain_pushes(home, toolchain, p)
    &&& ordinary_home(home) && relative_name(toolchain) ==> toolchain_separated(home, toolchain, p)
    &&& absolute_name(toolchain) && no_prefix(home) && home != seq!['\\'] ==> p == toolchain
}

/// Pushing `toolchains` onto a home without a prefix gives a path without a
/// prefix, unless the home is a lone `\` (which elsewhere becomes `\/`).
proof fn lemma_pushed_keeps_no_prefix(h: Seq<char>, part: Seq<char>, m: Seq<char>)
    requires
        pushed(h, part, m),
        part == "toolchains"@,
        no_prefix(h),
        h != seq!['\\'],
    ensures
        no_prefix(m),
{
    reveal_strlit("toolchains");
    assert(part.len() == 10 && part[0] == 't' && part[1] == 'o');
    if h.len() >= 2 {
        assert(m[0] == h[0] && m[1] == h[1]);
    } else if h.len() == 1 {
        assert(m[0] == h[0]);
        if h[0] == '/' {
            assert(m == h + part);
            assert(m[1] == 't');
        } else if h[0] == '\\' {
            assert(h =~= seq!['\\']);
        } else {
            assert(!is_separator(m[0]));
        }
    } else {
        assert(m == h + part);
        assert(m[0] == 't' && m[1] == 'o');
    }
}

/// A home directory that is non-empty, does not end in a separator, is not a
/// bare drive prefix and does not start with two separators.
pub open spec fn ordinary_home(home: Seq<char>) -> bool {
    &&& home.len() > 0
    &&& !is_separator(home.last())
    &&& !bare_drive(home)
    &&& !starts_with_two_separators(home)
}

proof fn lemma_toolchains_is_relative()
    ensures
        relative_name("toolchains"@),
        "toolchains"@.len() == 10,
        "toolchains"@.last() == 's',
{
    reveal_strlit("toolchains");
    let s = "toolchains"@;
    assert forall|i: int| 0 <= i < s.len() implies !is_separator(s[i]) && s[i] != ':' by {
        assert(0 <= i < 10);
    }
}


/// `s` holds no `c`.
pub open spec fn free_of(s: Seq<char>, c: char) -> bool {
    forall|i: int| 0 <= i < s.len() ==> s[i] != c
}

proof fn lemma_last_index_of(a: Seq<char>, c: char, b: Seq<char>)
    requires
        free_of(b, c),
    ensures
        last_index_of(a + seq![c] + b, c) == a.len(),
        free_of(a, c) ==> last_index_of(a, c) == -1,
    decreases b.len() + a.len(),
{
    let s = a + seq![c] + b;
    if b.len() == 0 {
        assert(s.last() == c);
    } else {
        assert(s.last() == b.last());
        assert(s.drop_last() =~= a + seq![c] + b.drop_last());
        lemma_last_index_of(a, c, b.drop_last());
    }
    if free_of(a, c) && a.len() > 0 {
        assert(a.last() != c);
        lemma_last_index_of(a.drop_last(), c, Seq::<char>::empty());
    }
}

/// A file name's stem is the name without its extension: `name.ext` (with no
/// `.` in `ext`) has the stem `name` when `name` is not empty, a name without
/// `.` is its own stem, and so is a name whose only `.` is its first
/// character (`.bashrc`).
pub proof fn law_stem_drops_the_extension(name: Seq<char>, ext: Seq<char>)
    requires
        free_of(ext, '.'),
    ensures
        name.len() > 0 ==> name_stem(name + seq!['.'] + ext) == name,
        free_of(name, '.') ==> name_stem(name) == name,
        name_stem(seq!['.'] + ext) == seq!['.'] + ext,
{
    lemma_last_index_of(name, '.', ext);
    let full = name + seq!['.'] + ext;
    assert(full.take(name.len() as int) =~= name);
    lemma_last_index_of(Seq::<char>::empty(), '.', ext);
    assert(Seq::<char>::empty() + seq!['.'] + ext =~= seq!['.'] + ext);
    if free_of(name, '.') {
        lemma_last_index_of(name, '.', Seq::<char>::empty());
    }
}

/// The file name of a path is its last part: `dir/name` has the file name
/// `name` when `name` is a plain name (not empty, no `/`, not `.` or `..`),
/// and a trailing `/` changes nothing.
pub proof fn law_file_name_is_the_last_part(dir: Seq<char>, name: Seq<char>, path: Seq<char>)
    requires
        name.len() > 0,
        free_of(name, '/'),
        name != seq!['.'],
        name != seq!['.', '.'],
    ensures
        file_name_of(dir + seq!['/'] + name) == Some(name),
        file_name_of(name) == Some(name),
        file_name_of(path + seq!['/']) == file_name_of(path),
{
    let p = dir + seq!['/'] + name;
    lemma_last_index_of(dir, '/', name);
    assert(p.skip(dir.len() as int + 1) =~= name);
    assert(p.last() == name.last());
    assert(p.len() >= 2);
    if name.last() == '.' {
        if name.len() == 1 {
            assert(name =~= seq!['.']);
        }
        assert(p[p.len() - 2] == name[name.len() - 2]);
        assert(name[name.len() - 2] != '/');
    }
    lemma_last_index_of(Seq::<char>::empty(), '/', name);
    assert(Seq::<char>::empty() + seq!['/'] + name =~= seq!['/'] + name);
    lemma_last_index_of(name, '/', Seq::<char>::empty());
    assert(name.skip(0) =~= name);
    if name.last() == '.' && name.len() >= 2 {
        assert(name[name.len() - 2] != '/');
    }
    assert((path + seq!['/']).drop_last() =~= path);
}

} // verus!
