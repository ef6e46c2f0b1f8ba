//! Command-line handling of the driver.

use vstd::prelude::*;
use vstd::string::*;
use crate::text::{has_eq, first_eq, find_first_eq, is_first_eq, str_eq};

verus! {

/// The views of a sequence of string slices.
pub open spec fn strs_view(args: Seq<&str>) -> Seq<Seq<char>> {
    args.map_values(|s: &str| s@)
}

/// The option name of a command-line argument: the text before the first `=`,
/// or the whole argument when it holds no `=`.
pub open spec fn arg_key(a: Seq<char>) -> Seq<char> {
    if has_eq(a) {
        a.take(first_eq(a))
    } else {
        a
    }
}

/// The value written inline after the first `=` of an argument (`--arg=value`).
pub open spec fn arg_inline_value(a: Seq<char>) -> Option<Seq<char>> {
    if has_eq(a) {
        Some(a.skip(first_eq(a) + 1))
    } else {
        None
    }
}

/// The values that `key` is given in `args[i..]`, in order: for `--key=value`
/// the inline value, for `--key value` the following argument (which is then
/// not read as an option itself). A trailing `--key` gives no value.
pub open spec fn arg_candidates(args: Seq<Seq<char>>, key: Seq<char>, i: int) -> Seq<Seq<char>>
    decreases args.len() - i,
{
    if i < 0 || i >= args.len() {
        Seq::empty()
    } else if arg_key(args[i]) != key {
        arg_candidates(args, key, i + 1)
    } else {
        match arg_inline_value(args[i]) {
            Some(v) => seq![v] + arg_candidates(args, key, i + 1),
            None => if i + 1 < args.len() {
                seq![args[i + 1]] + arg_candidates(args, key, i + 2)
            } else {
                Seq::empty()
            },
        }
    }
}

/// `pred` answered `false` for a value equal to `c`.
pub open spec fn rejected<F: Fn(&str) -> bool>(pred: F, c: Seq<char>) -> bool {
    exists|s: &str| s@ == c && call_ensures(pred, (s,), false)
}

/// If a command-line option matches `find_arg`, then apply the predicate `pred`
/// on its value. If `true`, then return it. The parameter is assumed to be
/// either `--arg=value` or `--arg value`.
///
/// The result is the first value of `find_arg` (see [`arg_candidates`]) that
/// `pred` accepts; `None` when `pred` rejects every value.
pub fn arg_value<'a>(args: &[&'a str], find_arg: &str, pred: impl Fn(&str) -> bool) -> (r: Option<&'a str>)
    requires
        forall|s: &str| call_requires(pred, (s,)),
    ensures
        ({
            let c = arg_candidates(strs_view(args@), find_arg@, 0);
            match r {
                Some(v) => exists|k: int|
                    0 <= k < c.len() && c[k] == v@ && call_ensures(pred, (v,), true)
                        && forall|j: int| 0 <= j < k ==> rejected(pred, #[trigger] c[j]),
                None => forall|j: int| 0 <= j < c.len() ==> rejected(pred, #[trigger] c[j]),
            }
        }),
{
    let ghost view = strs_view(args@);
    let ghost key = find_arg@;
    let ghost mut seen: Seq<Seq<char>> = Seq::empty();
    let n = args.len();
    let mut i: usize = 0;
    while i < n
        invariant
            n == args@.len(),
            view == strs_view(args@),
            key == find_arg@,
            i <= n + 1,
            forall|s: &str| call_requires(pred, (s,)),
            arg_candidates(view, key, 0) == seen + arg_candidates(view, key, i as int),
            forall|j: int| 0 <= j < seen.len() ==> rejected(pred, #[trigger] seen[j]),
        decreases n + 1 - i,
    {
        let arg: &'a str = args[i];
        assert(view[i as int] == arg@);
        let len = arg.unicode_len();
        let (matches, value): (bool, Option<&'a str>) = match find_first_eq(arg) {
            Some(p) => {
                let k = arg.substring_char(0, p);
                assert(k@ == arg_key(arg@));
                let v = arg.substring_char(p + 1, len);
                assert(v@ == arg@.skip(p + 1));
                (str_eq(k, find_arg), Some(v))
            },
            None => (str_eq(arg, find_arg), None),
        };
        if !matches {
            i = i + 1;
            continue;
        }
        let (candidate, next): (Option<&'a str>, usize) = match value {
            Some(v) => (Some(v), i + 1),
            None => if i + 1 < n {
                assert(view[i + 1] == args@[i + 1]@);
                (Some(args[i + 1]), i + 2)
            } else {
                (None, n)
            },
        };
        match candidate {
            Some(v) => {
                assert(arg_candidates(view, key, i as int) == seq![v@] + arg_candidates(view, key, next as int));
                let ok = pred(v);
                if ok {
                    assert(arg_candidates(view, key, 0)[seen.len() as int] == v@);
                    return Some(v);
                }
                proof {
                    assert(rejected(pred, v@));
                    let old_seen = seen;
                    seen = seen.push(v@);
                    assert(seen + arg_candidates(view, key, next as int) =~= old_seen + (seq![v@] + arg_candidates(view, key, next as int)));
                }
                i = next;
            },
            None => {
                assert(arg_candidates(view, key, i as int) =~= Seq::<Seq<char>>::empty());
                assert(arg_candidates(view, key, n as int) =~= Seq::<Seq<char>>::empty());
                i = n;
            },
        }
    }
    assert(arg_candidates(view, key, i as int) =~= Seq::<Seq<char>>::empty());
    assert(arg_candidates(view, key, 0) =~= seen);
    None
}


/// The views of a sequence of strings.
pub open spec fn strings_view(args: Seq<String>) -> Seq<Seq<char>> {
    args.map_values(|s: String| s@)
}

/// `args` gives `key` at least one value (see [`arg_candidates`]).
pub open spec fn has_arg_value(args: Seq<Seq<char>>, key: Seq<char>) -> bool {
    arg_candidates(args, key, 0).len() > 0
}

/// The `--sysroot` option is given a value in `args`.
pub fn has_sys_root_arg(args: &[&str]) -> (r: bool)
    ensures
        r == has_arg_value(strs_view(args@), "--sysroot"@),
{
    let any = |_s: &str| -> (b: bool)
        ensures
            b,
        { true };
    let found = arg_value(args, "--sysroot", any);
    let r = found.is_some();
    proof {
        let c = arg_candidates(strs_view(args@), "--sysroot"@, 0);
        if !r && c.len() > 0 {
            assert(rejected(any, c[0]));
        }
    }
    r
}

/// The view of each element of `v` as a string slice.
pub fn as_strs<'a>(v: &'a Vec<String>) -> (r: Vec<&'a str>)
    ensures
        strs_view(r@) == strings_view(v@),
{
    let mut r: Vec<&'a str> = Vec::new();
    let n = v.len();
    let mut i: usize = 0;
    while i < n
        invariant
            n == v@.len(),
            i <= n,
            r@.len() == i,
            forall|j: int| 0 <= j < i ==> #[trigger] r@[j]@ == v@[j]@,
        decreases n - i,
    {
        r.push(v[i].as_str());
        i = i + 1;
    }
    assert(strs_view(r@) =~= strings_view(v@));
    r
}

/// `i` is the position of the first element of `args` equal to `x`.
pub open spec fn is_first_index(args: Seq<Seq<char>>, x: Seq<char>, i: int) -> bool {
    &&& 0 <= i < args.len()
    &&& args[i] == x
    &&& forall|j: int| 0 <= j < i ==> args[j] != x
}

/// Position of the first element of `args` equal to `x`
/// (meaningful only when `args.contains(x)`).
pub open spec fn first_index(args: Seq<Seq<char>>, x: Seq<char>) -> int {
    choose|i: int| is_first_index(args, x, i)
}

/// The position of the first element of `args` equal to `x`, if any.
pub fn position_of(args: &Vec<String>, x: &str) -> (r: Option<usize>)
    ensures
        match r {
            Some(i) => strings_view(args@).contains(x@) && first_index(strings_view(args@), x@) == i
                && is_first_index(strings_view(args@), x@, i as int),
            None => !strings_view(args@).contains(x@),
        },
{
    let ghost view = strings_view(args@);
    let n = args.len();
    let mut i: usize = 0;
    while i < n
        invariant
            n == args@.len(),
            view == strings_view(args@),
            i <= n,
            forall|j: int| 0 <= j < i ==> view[j] != x@,
        decreases n - i,
    {
        if str_eq(args[i].as_str(), x) {
            proof {
                assert(view[i as int] == x@);
                assert(view.contains(x@));
                assert(is_first_index(view, x@, i as int));
                let k = first_index(view, x@);
                assert(is_first_index(view, x@, k));
                if k < i {
                    assert(view[k] != x@);
                } else if i < k {
                    assert(view[i as int] != x@);
                }
            }
            return Some(i);
        }
        i = i + 1;
    }
    proof {
        if view.contains(x@) {
            let k = choose|k: int| 0 <= k < view.len() && view[k] == x@;
            assert(view[k] != x@);
        }
    }
    None
}

/// `args` holds an element equal to `x`.
pub fn contains_arg(args: &Vec<String>, x: &str) -> (r: bool)
    ensures
        r == strings_view(args@).contains(x@),
{
    position_of(args, x).is_some()
}


/// `key` holds no `=`.
pub open spec fn no_eq(key: Seq<char>) -> bool {
    forall|j: int| 0 <= j < key.len() ==> key[j] != '='
}

proof fn lemma_option_forms(key: Seq<char>, v: Seq<char>)
    requires
        no_eq(key),
    ensures
        arg_key(key + seq!['='] + v) == key,
        arg_inline_value(key + seq!['='] + v) == Some(v),
        arg_key(key) == key,
        arg_inline_value(key) == None::<Seq<char>>,
{
    let a = key + seq!['='] + v;
    assert(is_first_eq(a, key.len() as int));
    crate::text::lemma_first_eq_unique(a, key.len() as int);
    assert(a.take(key.len() as int) =~= key);
    assert(a.skip(key.len() as int + 1) =~= v);
    if has_eq(key) {
        let k = first_eq(key);
        assert(is_first_eq(key, k));
    }
}

/// An option is written `key=value` or `key value`: the value of
/// `key=value` is everything after the first `=` (it may hold `=` itself);
/// `key` followed by another argument takes that argument as its value; a
/// trailing `key` gives none; an argument that does not start with `key` is
/// not that option. Values are found in order.
pub proof fn law_option_values(args: Seq<Seq<char>>, key: Seq<char>, i: int, v: Seq<char>)
    requires
        no_eq(key),
        0 <= i < args.len(),
    ensures
        args[i] == key + seq!['='] + v ==> arg_candidates(args, key, i) == seq![v] + arg_candidates(args, key, i + 1),
        args[i] == key && i + 1 < args.len() ==> arg_candidates(args, key, i) == seq![args[i + 1]]
            + arg_candidates(args, key, i + 2),
        args[i] == key && i + 1 == args.len() ==> arg_candidates(args, key, i) == Seq::<Seq<char>>::empty(),
        args[i].len() < key.len() || args[i].take(key.len() as int) != key ==> arg_candidates(args, key, i)
            == arg_candidates(args, key, i + 1),
{
    lemma_option_forms(key, v);
    let a = args[i];
    if a.len() < key.len() || a.take(key.len() as int) != key {
        if has_eq(a) {
            let k = first_eq(a);
            assert(is_first_eq(a, k));
            if arg_key(a) == key {
                assert(a.take(k).len() == key.len());
                assert(a.take(key.len() as int) =~= a.take(k));
            }
        } else {
            if arg_key(a) == key {
                assert(a.take(key.len() as int) =~= a);
            }
        }
    }
}


/// [`first_index`] is the first occurrence of `x` (the one that `--rustc`
/// is removed from): the element there is `x` and no element before it is.
pub proof fn law_first_index_is_the_first_occurrence(args: Seq<Seq<char>>, x: Seq<char>)
    requires
        args.contains(x),
    ensures
        0 <= first_index(args, x) < args.len(),
        args[first_index(args, x)] == x,
        forall|j: int| 0 <= j < first_index(args, x) ==> args[j] != x,
{
    let k = choose|k: int| 0 <= k < args.len() && args[k] == x;
    lemma_first_occurrence_exists(args, x, k);
    assert(is_first_index(args, x, first_index(args, x)));
}

proof fn lemma_first_occurrence_exists(args: Seq<Seq<char>>, x: Seq<char>, k: int)
    requires
        0 <= k < args.len(),
        args[k] == x,
    ensures
        exists|i: int| is_first_index(args, x, i),
    decreases k,
{
    if forall|j: int| 0 <= j < k ==> args[j] != x {
        assert(is_first_index(args, x, k));
    } else {
        let j = choose|j: int| 0 <= j < k && args[j] == x;
        lemma_first_occurrence_exists(args, x, j);
    }
}

} // verus!
