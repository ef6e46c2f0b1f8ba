//! Spans: rustc's byte positions in its global source map, and the API's
//! positions relative to the start of each source file.

use vstd::prelude::*;
use crate::text::str_eq;

verus! {

/// What the driver remembers of a source file whose spans it handed out:
/// the syntax context of its spans and the position at which the file starts
/// in rustc's source map.
#[derive(Clone, Copy, Debug, PartialEq, Eq, Structural)]
pub struct SpanSourceInfo {
    pub rustc_span_cx: u32,
    pub rustc_start_offset: usize,
}

/// A rustc span: byte positions in rustc's source map and a syntax context.
#[derive(Clone, Copy, Debug, PartialEq, Eq, Structural)]
pub struct RustcSpan {
    pub lo: u32,
    pub hi: u32,
    pub ctxt: u32,
}

/// An API span: the source file and the positions relative to its start.
#[derive(Debug)]
pub struct ApiSpan {
    pub source: String,
    pub start: usize,
    pub end: usize,
}

/// The information registered for `name` in `entries`: the first entry with
/// that name.
pub open spec fn find_info<K>(entries: Seq<(K, SpanSourceInfo)>, name: K) -> Option<SpanSourceInfo>
    decreases entries.len(),
{
    if entries.len() == 0 {
        None
    } else if entries[0].0 == name {
        Some(entries[0].1)
    } else {
        find_info(entries.drop_first(), name)
    }
}

proof fn lemma_find_info_step<K>(entries: Seq<(K, SpanSourceInfo)>, name: K, i: int)
    requires
        0 <= i < entries.len(),
        entries[i].0 != name,
    ensures
        find_info(entries.skip(i), name) == find_info(entries.skip(i + 1), name),
{
    assert(entries.skip(i).drop_first() =~= entries.skip(i + 1));
}

proof fn lemma_find_info_push<K>(entries: Seq<(K, SpanSourceInfo)>, name: K, e: (K, SpanSourceInfo))
    ensures
        find_info(entries.push(e), name) == (match find_info(entries, name) {
            Some(i) => Some(i),
            None => if e.0 == name { Some(e.1) } else { None },
        }),
    decreases entries.len(),
{
    if entries.len() > 0 {
        assert(entries.push(e).drop_first() =~= entries.drop_first().push(e));
        assert(entries.push(e)[0] == entries[0]);
        lemma_find_info_push(entries.drop_first(), name, e);
    } else {
        assert(entries.push(e).drop_first() =~= Seq::<(K, SpanSourceInfo)>::empty());
        assert(find_info(Seq::<(K, SpanSourceInfo)>::empty(), name) is None);
        assert(entries.push(e)[0] == e);
    }
}

/// The source files the driver handed out spans for, with their information.
pub struct SpanSources {
    entries: Vec<(String, SpanSourceInfo)>,
}

impl View for SpanSources {
    type V = Seq<(Seq<char>, SpanSourceInfo)>;

    closed spec fn view(&self) -> Seq<(Seq<char>, SpanSourceInfo)> {
        self.entries@.map_values(|e: (String, SpanSourceInfo)| (e.0@, e.1))
    }
}

impl SpanSources {
    /// No source file registered yet.
    pub fn new() -> (r: Self)
        ensures
            r@ == Seq::<(Seq<char>, SpanSourceInfo)>::empty(),
    {
        let r = SpanSources { entries: Vec::new() };
        assert(r@ =~= Seq::<(Seq<char>, SpanSourceInfo)>::empty());
        r
    }

    /// The information registered for the file `name`, if any.
    pub fn span_src_info(&self, name: &str) -> (r: Option<SpanSourceInfo>)
        ensures
            r == find_info(self@, name@),
    {
        let ghost view = self@;
        let n = self.entries.len();
        let mut i: usize = 0;
        assert(view.skip(0) =~= view);
        while i < n
            invariant
                n == self.entries@.len(),
                view == self@,
                view.len() == n,
                i <= n,
                find_info(view, name@) == find_info(view.skip(i as int), name@),
            decreases n - i,
        {
            assert(view[i as int] == (self.entries@[i as int].0@, self.entries@[i as int].1));
            if str_eq(self.entries[i].0.as_str(), name) {
                assert(view.skip(i as int)[0] == view[i as int]);
                return Some(self.entries[i].1);
            }
            proof {
                lemma_find_info_step(view, name@, i as int);
            }
            i = i + 1;
        }
        assert(view.skip(n as int) =~= Seq::<(Seq<char>, SpanSourceInfo)>::empty());
        None
    }

    /// The information of the file `name`: the registered one, or, for a file
    /// seen for the first time, `fresh`, which is then registered.
    pub fn info_or_insert(&mut self, name: &str, fresh: SpanSourceInfo) -> (r: SpanSourceInfo)
        ensures
            find_info(old(self)@, name@) matches Some(info) ==> r == info && final(self)@ == old(self)@,
            find_info(old(self)@, name@) is None ==> r == fresh && final(self)@ == old(self)@.push((name@, fresh)),
            find_info(final(self)@, name@) == Some(r),
    {
        match self.span_src_info(name) {
            Some(info) => info,
            None => {
                let ghost before = self@;
                self.entries.push((name.to_owned(), fresh));
                proof {
                    assert(self@ =~= before.push((name@, fresh)));
                    lemma_find_info_push(before, name@, (name@, fresh));
                }
                fresh
            },
        }
    }
}

/// The API positions of a rustc span in a file registered with `info`.
pub open spec fn api_positions(span: RustcSpan, info: SpanSourceInfo) -> (int, int) {
    (span.lo - info.rustc_start_offset, span.hi - info.rustc_start_offset)
}

/// The rustc span of API positions in a file registered with `info`: the
/// positions shifted by the file's start, cut to `u32` as rustc stores them.
pub open spec fn rustc_span_of(start: usize, end: usize, info: SpanSourceInfo) -> RustcSpan {
    RustcSpan {
        lo: (start + info.rustc_start_offset) as u32,
        hi: (end + info.rustc_start_offset) as u32,
        ctxt: info.rustc_span_cx,
    }
}

/// The API span of a rustc span in the file `file_name`, which starts at
/// `file_start` in rustc's source map. The file is registered on first use.
pub fn to_api_span(sources: &mut SpanSources, span: RustcSpan, file_name: &str, file_start: usize) -> (r: ApiSpan)
    requires
        ({
            let offset = match find_info(old(sources)@, file_name@) {
                Some(info) => info.rustc_start_offset,
                None => file_start,
            };
            offset <= span.lo && offset <= span.hi
        }),
    ensures
        r.source@ == file_name@,
        find_info(final(sources)@, file_name@) matches Some(info) && (r.start as int, r.end as int)
            == api_positions(span, info),
        find_info(old(sources)@, file_name@) is Some ==> final(sources)@ == old(sources)@,
        find_info(old(sources)@, file_name@) is None ==> final(sources)@ == old(sources)@.push(
            (file_name@, SpanSourceInfo { rustc_span_cx: span.ctxt, rustc_start_offset: file_start }),
        ),
{
    let fresh = SpanSourceInfo { rustc_span_cx: span.ctxt, rustc_start_offset: file_start };
    let info = sources.info_or_insert(file_name, fresh);
    let start = (span.lo as usize) - info.rustc_start_offset;
    let end = (span.hi as usize) - info.rustc_start_offset;
    ApiSpan { source: file_name.to_owned(), start, end }
}

/// The rustc span of an API span. The file of the span must have been
/// registered, which it is for every span the driver handed out.
pub fn to_rustc_span(sources: &SpanSources, span: &ApiSpan) -> (r: RustcSpan)
    requires
        find_info(sources@, span.source@) matches Some(info)
            && span.start + info.rustc_start_offset <= usize::MAX
            && span.end + info.rustc_start_offset <= usize::MAX,
    ensures
        r == rustc_span_of(span.start, span.end, find_info(sources@, span.source@).unwrap()),
{
    let info = match sources.span_src_info(span.source.as_str()) {
        Some(info) => info,
        None => {
            assert(false);
            SpanSourceInfo { rustc_span_cx: 0, rustc_start_offset: 0 }
        },
    };
    RustcSpan {
        lo: (span.start + info.rustc_start_offset) as u32,
        hi: (span.end + info.rustc_start_offset) as u32,
        ctxt: info.rustc_span_cx,
    }
}

/// A rustc span converted to the API and back keeps its positions; it keeps
/// its syntax context when that of the file's first span is the same.
pub proof fn law_span_round_trip(span: RustcSpan, info: SpanSourceInfo)
    requires
        info.rustc_start_offset <= span.lo,
        info.rustc_start_offset <= span.hi,
    ensures
        ({
            let (start, end) = api_positions(span, info);
            let back = rustc_span_of(start as usize, end as usize, info);
            &&& back.lo == span.lo
            &&& back.hi == span.hi
            &&& (info.rustc_span_cx == span.ctxt ==> back == span)
        }),
{
    let (start, end) = api_positions(span, info);
    assert(start as usize + info.rustc_start_offset == span.lo);
    assert(end as usize + info.rustc_start_offset == span.hi);
    let lo = span.lo;
    let hi = span.hi;
    assert(((lo as int) as u32) == lo);
    assert(((hi as int) as u32) == hi);
}


/// A span of a file converted by [`to_api_span`] and back by
/// [`to_rustc_span`] keeps its positions, when the table registers each file
/// at the file's start: the file is either new to `registered`, or registered
/// with `file_start`. The API positions are those relative to the start.
pub proof fn law_file_span_round_trip(
    registered: Seq<(Seq<char>, SpanSourceInfo)>,
    span: RustcSpan,
    name: Seq<char>,
    file_start: usize,
)
    requires
        find_info(registered, name) matches Some(info) ==> info.rustc_start_offset == file_start,
        file_start <= span.lo,
        file_start <= span.hi,
    ensures
        ({
            let after = match find_info(registered, name) {
                Some(_) => registered,
                None => registered.push(
                    (name, SpanSourceInfo { rustc_span_cx: span.ctxt, rustc_start_offset: file_start }),
                ),
            };
            let info = find_info(after, name).unwrap();
            let (start, end) = api_positions(span, info);
            let back = rustc_span_of(start as usize, end as usize, info);
            &&& find_info(after, name) is Some
            &&& start == span.lo - file_start
            &&& end == span.hi - file_start
            &&& back.lo == span.lo
            &&& back.hi == span.hi
        }),
{
    let fresh = SpanSourceInfo { rustc_span_cx: span.ctxt, rustc_start_offset: file_start };
    lemma_find_info_push(registered, name, (name, fresh));
    let after = match find_info(registered, name) {
        Some(_) => registered,
        None => registered.push((name, fresh)),
    };
    let info = find_info(after, name).unwrap();
    assert(info.rustc_start_offset == file_start);
    law_span_round_trip(span, info);
}

/// A source of spans as the conversion of expanded code tells them apart: a
/// source file, the expansion of a macro (by the syntax context of its
/// spans), or compiler desugaring in a file (by file and syntax context).
#[derive(Debug)]
pub enum SpanSourceKey {
    File(String),
    Macro(u32),
    Sugar(String, u32),
}

/// The mathematical form of a [`SpanSourceKey`].
pub enum SourceKeyModel {
    File(Seq<char>),
    Macro(u32),
    Sugar(Seq<char>, u32),
}

impl View for SpanSourceKey {
    type V = SourceKeyModel;

    open spec fn view(&self) -> SourceKeyModel {
        match self {
            SpanSourceKey::File(name) => SourceKeyModel::File(name@),
            SpanSourceKey::Macro(cx) => SourceKeyModel::Macro(*cx),
            SpanSourceKey::Sugar(name, cx) => SourceKeyModel::Sugar(name@, *cx),
        }
    }
}

fn same_key(a: &SpanSourceKey, b: &SpanSourceKey) -> (r: bool)
    ensures
        r == (a@ == b@),
{
    match (a, b) {
        (SpanSourceKey::File(x), SpanSourceKey::File(y)) => str_eq(x.as_str(), y.as_str()),
        (SpanSourceKey::Macro(x), SpanSourceKey::Macro(y)) => *x == *y,
        (SpanSourceKey::Sugar(x, i), SpanSourceKey::Sugar(y, j)) => *i == *j && str_eq(x.as_str(), y.as_str()),
        _ => false,
    }
}

/// Where a rustc span comes from.
pub enum SpanOrigin {
    /// A span written in the source file `name`, which starts at `file_start`
    /// in rustc's source map.
    File { name: String, file_start: usize },
    /// A span produced by expanding a macro that was called at `call_site`.
    Macro { call_site: RustcSpan },
    /// A span produced by desugaring code of the file `name` at `call_site`.
    Sugar { name: String, call_site: RustcSpan },
}

/// The source that a span of `origin` belongs to. Expanded spans are told
/// apart by their own syntax context.
pub open spec fn source_key_of(span: RustcSpan, origin: SpanOrigin) -> SourceKeyModel {
    match origin {
        SpanOrigin::File { name, .. } => SourceKeyModel::File(name@),
        SpanOrigin::Macro { .. } => SourceKeyModel::Macro(span.ctxt),
        SpanOrigin::Sugar { name, .. } => SourceKeyModel::Sugar(name@, span.ctxt),
    }
}

/// The information registered for a source seen for the first time through
/// `span`: its syntax context, and as start the start of the file, or for an
/// expansion the start of its call site.
pub open spec fn fresh_info(span: RustcSpan, origin: SpanOrigin) -> SpanSourceInfo {
    match origin {
        SpanOrigin::File { file_start, .. } => SpanSourceInfo { rustc_span_cx: span.ctxt, rustc_start_offset: file_start },
        SpanOrigin::Macro { call_site } => SpanSourceInfo {
            rustc_span_cx: span.ctxt,
            rustc_start_offset: call_site.lo as usize,
        },
        SpanOrigin::Sugar { call_site, .. } => SpanSourceInfo {
            rustc_span_cx: span.ctxt,
            rustc_start_offset: call_site.lo as usize,
        },
    }
}

/// The span whose positions the API reports: the span itself in a file, the
/// call site for an expansion.
pub open spec fn reported_span(span: RustcSpan, origin: SpanOrigin) -> RustcSpan {
    match origin {
        SpanOrigin::File { .. } => span,
        SpanOrigin::Macro { call_site } => call_site,
        SpanOrigin::Sugar { call_site, .. } => call_site,
    }
}

fn key_of(span: RustcSpan, origin: &SpanOrigin) -> (r: SpanSourceKey)
    ensures
        r@ == source_key_of(span, *origin),
{
    match origin {
        SpanOrigin::File { name, .. } => SpanSourceKey::File(name.clone()),
        SpanOrigin::Macro { .. } => SpanSourceKey::Macro(span.ctxt),
        SpanOrigin::Sugar { name, .. } => SpanSourceKey::Sugar(name.clone(), span.ctxt),
    }
}

/// The span sources of files and expansions that the driver handed out
/// spans for, with their information.
pub struct SpanSourceCache {
    entries: Vec<(SpanSourceKey, SpanSourceInfo)>,
}

impl View for SpanSourceCache {
    type V = Seq<(SourceKeyModel, SpanSourceInfo)>;

    closed spec fn view(&self) -> Seq<(SourceKeyModel, SpanSourceInfo)> {
        self.entries@.map_values(|e: (SpanSourceKey, SpanSourceInfo)| (e.0@, e.1))
    }
}

impl SpanSourceCache {
    /// No span source registered yet.
    pub fn new() -> (r: Self)
        ensures
            r@ == Seq::<(SourceKeyModel, SpanSourceInfo)>::empty(),
    {
        let r = SpanSourceCache { entries: Vec::new() };
        assert(r@ =~= Seq::<(SourceKeyModel, SpanSourceInfo)>::empty());
        r
    }

    /// The information registered for the source `key`, if any.
    pub fn get_span_src_info(&self, key: &SpanSourceKey) -> (r: Option<SpanSourceInfo>)
        ensures
            r == find_info(self@, key@),
    {
        let ghost view = self@;
        let n = self.entries.len();
        let mut i: usize = 0;
        assert(view.skip(0) =~= view);
        while i < n
            invariant
                n == self.entries@.len(),
                view == self@,
                view.len() == n,
                i <= n,
                find_info(view, key@) == find_info(view.skip(i as int), key@),
            decreases n - i,
        {
            assert(view[i as int] == (self.entries@[i as int].0@, self.entries@[i as int].1));
            if same_key(&self.entries[i].0, key) {
                assert(view.skip(i as int)[0] == view[i as int]);
                return Some(self.entries[i].1);
            }
            proof {
                lemma_find_info_step(view, key@, i as int);
            }
            i = i + 1;
        }
        assert(view.skip(n as int) =~= Seq::<(SourceKeyModel, SpanSourceInfo)>::empty());
        None
    }

    /// The span source of `span` from `origin` with its information, and the
    /// span whose positions are reported. A source seen for the first time is
    /// registered with [`fresh_info`]; later spans of it keep that
    /// information.
    pub fn span_info(&mut self, span: RustcSpan, origin: &SpanOrigin) -> (r: (SpanSourceKey, SpanSourceInfo, RustcSpan))
        ensures
            r.0@ == source_key_of(span, *origin),
            r.2 == reported_span(span, *origin),
            find_info(old(self)@, r.0@) matches Some(info) ==> r.1 == info && final(self)@ == old(self)@,
            find_info(old(self)@, r.0@) is None ==> r.1 == fresh_info(span, *origin)
                && final(self)@ == old(self)@.push((r.0@, r.1)),
            find_info(final(self)@, r.0@) == Some(r.1),
    {
        let key = key_of(span, origin);
        let reported = match origin {
            SpanOrigin::File { .. } => span,
            SpanOrigin::Macro { call_site } => *call_site,
            SpanOrigin::Sugar { call_site, .. } => *call_site,
        };
        match self.get_span_src_info(&key) {
            Some(info) => (key, info, reported),
            None => {
                let fresh = match origin {
                    SpanOrigin::File { file_start, .. } => SpanSourceInfo {
                        rustc_span_cx: span.ctxt,
                        rustc_start_offset: *file_start,
                    },
                    SpanOrigin::Macro { call_site } => SpanSourceInfo {
                        rustc_span_cx: span.ctxt,
                        rustc_start_offset: call_site.lo as usize,
                    },
                    SpanOrigin::Sugar { call_site, .. } => SpanSourceInfo {
                        rustc_span_cx: span.ctxt,
                        rustc_start_offset: call_site.lo as usize,
                    },
                };
                let ghost before = self@;
                self.entries.push((key_of(span, origin), fresh));
                proof {
                    assert(self@ =~= before.push((key@, fresh)));
                    lemma_find_info_push(before, key@, (key@, fresh));
                }
                (key, fresh, reported)
            },
        }
    }
}

/// An API span in a span source: the source and the positions relative to
/// its start.
#[derive(Debug)]
pub struct SourceSpan {
    pub source: SpanSourceKey,
    pub start: usize,
    pub end: usize,
}

/// The API span of a rustc span from `origin`: in a file, the span's
/// positions relative to the file's start; in an expansion, those of the
/// call site relative to the first call site of that expansion's source.
pub fn to_span(cache: &mut SpanSourceCache, span: RustcSpan, origin: &SpanOrigin) -> (r: SourceSpan)
    requires
        ({
            let info = match find_info(old(cache)@, source_key_of(span, *origin)) {
                Some(info) => info,
                None => fresh_info(span, *origin),
            };
            let reported = reported_span(span, *origin);
            info.rustc_start_offset <= reported.lo && info.rustc_start_offset <= reported.hi
        }),
    ensures
        r.source@ == source_key_of(span, *origin),
        find_info(final(cache)@, r.source@) matches Some(info) && (r.start as int, r.end as int)
            == api_positions(reported_span(span, *origin), info),
        find_info(old(cache)@, r.source@) is Some ==> final(cache)@ == old(cache)@,
        find_info(old(cache)@, r.source@) is None ==> final(cache)@ == old(cache)@.push(
            (r.source@, fresh_info(span, *origin)),
        ),
{
    let (source, info, reported) = cache.span_info(span, origin);
    let start = (reported.lo as usize) - info.rustc_start_offset;
    let end = (reported.hi as usize) - info.rustc_start_offset;
    SourceSpan { source, start, end }
}


/// [`to_span`] where the positions allow it: `None`, with the span source
/// still registered, when the reported span starts or ends before its
/// source's registered start.
pub fn try_to_span(cache: &mut SpanSourceCache, span: RustcSpan, origin: &SpanOrigin) -> (r: Option<SourceSpan>)
    ensures
        ({
            let key = source_key_of(span, *origin);
            let info = find_info(final(cache)@, key).unwrap();
            let reported = reported_span(span, *origin);
            &&& find_info(final(cache)@, key) is Some
            &&& find_info(old(cache)@, key) is Some ==> final(cache)@ == old(cache)@
            &&& find_info(old(cache)@, key) is None ==> final(cache)@ == old(cache)@.push(
                (key, fresh_info(span, *origin)),
            )
            &&& r is Some <==> (info.rustc_start_offset <= reported.lo && info.rustc_start_offset <= reported.hi)
            &&& r matches Some(s) ==> s.source@ == key && (s.start as int, s.end as int) == api_positions(
                reported,
                info,
            )
        }),
{
    let (source, info, reported) = cache.span_info(span, origin);
    if info.rustc_start_offset <= reported.lo as usize && info.rustc_start_offset <= reported.hi as usize {
        let start = (reported.lo as usize) - info.rustc_start_offset;
        let end = (reported.hi as usize) - info.rustc_start_offset;
        Some(SourceSpan { source, start, end })
    } else {
        None
    }
}


/// A table answers with the information of the first entry of a name: later
/// entries of the same name are never seen, and a name without an entry has
/// no information.
pub proof fn law_table_answers_with_the_first_entry<K>(entries: Seq<(K, SpanSourceInfo)>, name: K, i: int)
    ensures
        0 <= i < entries.len() && entries[i].0 == name && (forall|j: int| 0 <= j < i ==> entries[j].0 != name)
            ==> find_info(entries, name) == Some(entries[i].1),
        (forall|j: int| 0 <= j < entries.len() ==> entries[j].0 != name) ==> find_info(entries, name) is None,
    decreases entries.len(),
{
    if entries.len() > 0 {
        let rest = entries.drop_first();
        law_table_answers_with_the_first_entry(rest, name, i - 1);
        if 0 < i < entries.len() && entries[i].0 == name && (forall|j: int| 0 <= j < i ==> entries[j].0 != name) {
            assert(entries[0].0 != name);
            assert forall|j: int| 0 <= j < i - 1 implies rest[j].0 != name by {
                assert(rest[j] == entries[j + 1]);
            }
            assert(rest[i - 1] == entries[i]);
        }
        if forall|j: int| 0 <= j < entries.len() ==> entries[j].0 != name {
            assert(entries[0].0 != name);
            assert forall|j: int| 0 <= j < rest.len() implies rest[j].0 != name by {
                assert(rest[j] == entries[j + 1]);
            }
        }
    }
}

/// How a span is placed in its source: a file span is registered with the
/// file's start and reported as itself; a span from a macro is registered
/// under its syntax context, and one from desugaring under its file and
/// syntax context, both with the start of the call site, and both are
/// reported as the call site. The syntax context registered is always the
/// span's. API positions are rustc positions less the registered start, and
/// back again.
pub proof fn law_spans_are_placed_in_their_source(
    span: RustcSpan,
    name: String,
    file_start: usize,
    call_site: RustcSpan,
    info: SpanSourceInfo,
    start: usize,
    end: usize,
)
    ensures
        ({
            let file = SpanOrigin::File { name, file_start };
            &&& source_key_of(span, file) == SourceKeyModel::File(name@)
            &&& fresh_info(span, file) == (SpanSourceInfo { rustc_span_cx: span.ctxt, rustc_start_offset: file_start })
            &&& reported_span(span, file) == span
        }),
        ({
            let mac = SpanOrigin::Macro { call_site };
            &&& source_key_of(span, mac) == SourceKeyModel::Macro(span.ctxt)
            &&& fresh_info(span, mac).rustc_span_cx == span.ctxt
            &&& fresh_info(span, mac).rustc_start_offset == call_site.lo
            &&& reported_span(span, mac) == call_site
        }),
        ({
            let sugar = SpanOrigin::Sugar { name, call_site };
            &&& source_key_of(span, sugar) == SourceKeyModel::Sugar(name@, span.ctxt)
            &&& fresh_info(span, sugar).rustc_span_cx == span.ctxt
            &&& fresh_info(span, sugar).rustc_start_offset == call_site.lo
            &&& reported_span(span, sugar) == call_site
        }),
        api_positions(span, info) == (span.lo - info.rustc_start_offset, span.hi - info.rustc_start_offset),
        start + info.rustc_start_offset <= u32::MAX && end + info.rustc_start_offset <= u32::MAX
            ==> rustc_span_of(start, end, info) == (RustcSpan {
                lo: (start + info.rustc_start_offset) as u32,
                hi: (end + info.rustc_start_offset) as u32,
                ctxt: info.rustc_span_cx,
            }),
        start + info.rustc_start_offset <= u32::MAX ==> rustc_span_of(start, end, info).lo == start
            + info.rustc_start_offset,
{
}

} // verus!
