//! The lints of `marker_lints`, Marker's lints for its own code base, as
//! decisions on the facts they read from a node.

use vstd::prelude::*;
use crate::ids::TyDefIdLayout;
use crate::text::str_eq;

verus! {

/// Whether `c` has the Unicode `Uppercase` property, as
/// `char::is_uppercase` reports it.
pub uninterp spec fn char_is_uppercase(c: char) -> bool;

/// `char::is_uppercase`. The result is named by [`char_is_uppercase`]; the
/// contract also states what the Unicode tables give for ASCII: `A` to `Z`
/// are uppercase, every other ASCII character is not.
#[verifier::external_body]
fn is_uppercase(c: char) -> (r: bool)
    ensures
        r == char_is_uppercase(c),
        'A' <= c <= 'Z' ==> r,
        (c as u32) < 128 && !('A' <= c <= 'Z') ==> !r,
{
    c.is_uppercase()
}

/// The message starts with an uppercase character.
pub open spec fn starts_uppercase(msg: Seq<char>) -> bool {
    msg.len() > 0 && char_is_uppercase(msg[0])
}

/// Diagnostic messages should start with a lower case letter, according to
/// rustc's dev guide. `msg` is the value of the string literal passed as the
/// message, `None` when the message is not a (valid UTF-8) string literal.
/// The result says whether the lint is emitted.
pub fn check_msg(msg: Option<&str>) -> (r: bool)
    ensures
        r == (msg matches Some(m) && starts_uppercase(m@)),
        msg matches Some(m) && m@.len() > 0 && 'A' <= m@[0] <= 'Z' ==> r,
        msg matches Some(m) && m@.len() > 0 && (m@[0] as u32) < 128 && !('A' <= m@[0] <= 'Z') ==> !r,
{
    match msg {
        Some(m) => {
            if m.unicode_len() == 0 {
                false
            } else {
                is_uppercase(m.get_char(0))
            }
        },
        None => false,
    }
}

/// What the diagnostic lint reads of a method call expression.
pub struct MethodCall {
    /// The type definition behind the receiver, when the receiver is a
    /// reference to an ADT.
    pub receiver_adt: Option<TyDefIdLayout>,
    /// The name of the called method.
    pub method: String,
    /// For each argument, the value of the string literal it is, if it is one.
    pub args: Vec<Option<String>>,
}

/// The call emits a lint through Marker's context: the receiver refers to one
/// of `marker_context_ids`, the method is `emit_lint` and the call has at
/// least three arguments.
pub open spec fn is_emit_lint_call(call: MethodCall, marker_context_ids: Seq<TyDefIdLayout>) -> bool {
    &&& call.receiver_adt matches Some(id) && marker_context_ids.contains(id)
    &&& call.method@ == "emit_lint"@
    &&& call.args@.len() >= 3
}

/// The message argument (the third) of an `emit_lint` call, as a string.
pub open spec fn message_arg(call: MethodCall) -> Option<Seq<char>> {
    match call.args@[2] {
        Some(s) => Some(s@),
        None => None,
    }
}

/// The lint `DIAG_MSG_UPPERCASE_START` on a method call: emitted when the
/// call emits a lint through `MarkerContext` with a message that starts with
/// an uppercase character.
pub fn check_expr(call: &MethodCall, marker_context_ids: &Vec<TyDefIdLayout>) -> (r: bool)
    ensures
        r == (is_emit_lint_call(*call, marker_context_ids@)
            && (message_arg(*call) matches Some(m) && starts_uppercase(m))),
        is_emit_lint_call(*call, marker_context_ids@) && (message_arg(*call) matches Some(m)
            && m.len() > 0 && 'A' <= m[0] <= 'Z') ==> r,
        message_arg(*call) matches Some(m) && m.len() > 0 && (m[0] as u32) < 128 && !('A' <= m[0] <= 'Z') ==> !r,
{
    let on_context = match call.receiver_adt {
        Some(id) => contains_id(marker_context_ids, id),
        None => false,
    };
    if !on_context || !str_eq(call.method.as_str(), "emit_lint") || call.args.len() < 3 {
        return false;
    }
    match &call.args[2] {
        Some(msg) => check_msg(Some(msg.as_str())),
        None => check_msg(None),
    }
}

fn contains_id(ids: &Vec<TyDefIdLayout>, id: TyDefIdLayout) -> (r: bool)
    ensures
        r == ids@.contains(id),
{
    let n = ids.len();
    let mut i: usize = 0;
    while i < n
        invariant
            n == ids@.len(),
            i <= n,
            forall|j: int| 0 <= j < i ==> ids@[j] != id,
        decreases n - i,
    {
        if ids[i] == id {
            assert(ids@[i as int] == id);
            return true;
        }
        i = i + 1;
    }
    false
}

/// What the span lint reads of a function item.
pub struct FnItem {
    /// The function is public.
    pub is_pub: bool,
    /// For each parameter, when its type (references peeled) is a path, the
    /// names of the path's segments.
    pub params: Vec<Option<Vec<String>>>,
}

/// The parameter type is a path whose last segment is `Span`.
pub open spec fn is_span_param(param: Option<Vec<String>>) -> bool {
    param matches Some(segments) && segments@.len() > 0 && segments@.last()@ == "Span"@
}

/// Every path type of the function has at least one segment.
pub open spec fn paths_have_segments(item: FnItem) -> bool {
    forall|i: int| 0 <= i < item.params@.len() ==> (#[trigger] item.params@[i] matches Some(s) ==> s@.len() > 0)
}

/// The lint `NOT_USING_HAS_SPAN_TRAIT` on a function: the positions of the
/// parameters of a public function that take a `Span`, in order. Each is
/// reported with the suggestion to take `impl HasSpan` instead.
pub fn check_item(item: &FnItem) -> (r: Vec<usize>)
    requires
        item.is_pub ==> paths_have_segments(*item),
    ensures
        !item.is_pub ==> r@.len() == 0,
        item.is_pub ==> r@ == Seq::new(item.params@.len(), |i: int| i as usize).filter(
            |i: usize| is_span_param(item.params@[i as int]),
        ),
{
    let mut r: Vec<usize> = Vec::new();
    if !item.is_pub {
        return r;
    }
    let ghost all = Seq::new(item.params@.len(), |i: int| i as usize);
    let ghost pred = |i: usize| is_span_param(item.params@[i as int]);
    let n = item.params.len();
    let mut i: usize = 0;
    assert(all.take(0) =~= Seq::<usize>::empty());
    while i < n
        invariant
            n == item.params@.len(),
            all == Seq::new(item.params@.len(), |i: int| i as usize),
            pred == (|i: usize| is_span_param(item.params@[i as int])),
            i <= n,
            paths_have_segments(*item),
            r@ == all.take(i as int).filter(pred),
        decreases n - i,
    {
        let is_span = match &item.params[i] {
            Some(segments) => {
                assert(item.params@[i as int] matches Some(s) ==> s@.len() > 0);
                let last = segments.len() - 1;
                str_eq(segments[last].as_str(), "Span")
            },
            None => false,
        };
        proof {
            reveal_with_fuel(Seq::<_>::filter, 1);
            assert(all.take(i + 1).drop_last() =~= all.take(i as int));
            assert(all.take(i + 1).last() == i);
        }
        if is_span {
            r.push(i);
        }
        i = i + 1;
    }
    assert(all.take(n as int) =~= all);
    r
}


/// What the lints look at: a call emits a lint through Marker's context
/// exactly when its receiver is one of the context's types, its method is
/// `emit_lint` and it has at least three arguments, the third being the
/// message; a message is flagged by its first character; a parameter takes a
/// `Span` when its type is a path whose last segment is `Span`.
pub proof fn law_lints_read_what_they_are_about(
    call: MethodCall,
    ids: Seq<TyDefIdLayout>,
    msg: Seq<char>,
    segments: Vec<String>,
)
    ensures
        is_emit_lint_call(call, ids) <==> (call.receiver_adt is Some && ids.contains(call.receiver_adt.unwrap())
            && call.method@ == "emit_lint"@ && call.args@.len() >= 3),
        call.args@.len() >= 3 ==> message_arg(call) == (match call.args@[2] {
            Some(m) => Some(m@),
            None => None::<Seq<char>>,
        }),
        starts_uppercase(msg) <==> (msg.len() > 0 && char_is_uppercase(msg[0])),
        !is_span_param(None),
        segments@.len() > 0 ==> (is_span_param(Some(segments)) <==> segments@.last()@ == "Span"@),
        segments@.len() == 0 ==> !is_span_param(Some(segments)),
{
}

} // verus!
