use marker_driver::span::{
    to_api_span, to_rustc_span, to_span, try_to_span, ApiSpan, RustcSpan, SpanOrigin, SpanSourceCache, SpanSourceInfo, SpanSourceKey,
    SpanSources,
};

#[test]
fn spans_are_relative_to_their_file() {
    let mut sources = SpanSources::new();
    let span = RustcSpan { lo: 1010, hi: 1025, ctxt: 0 };
    let api = to_api_span(&mut sources, span, "src/lib.rs", 1000);
    assert_eq!(api.source, "src/lib.rs");
    assert_eq!((api.start, api.end), (10, 25));
    assert_eq!(
        sources.span_src_info("src/lib.rs"),
        Some(SpanSourceInfo { rustc_span_cx: 0, rustc_start_offset: 1000 })
    );
    assert_eq!(to_rustc_span(&sources, &api), span);
}

#[test]
fn the_first_registration_of_a_file_wins() {
    let mut sources = SpanSources::new();
    let _ = to_api_span(&mut sources, RustcSpan { lo: 500, hi: 510, ctxt: 0 }, "a.rs", 500);
    let again = to_api_span(&mut sources, RustcSpan { lo: 600, hi: 601, ctxt: 0 }, "a.rs", 550);
    assert_eq!((again.start, again.end), (100, 101));
    let other = to_api_span(&mut sources, RustcSpan { lo: 700, hi: 705, ctxt: 0 }, "b.rs", 690);
    assert_eq!((other.start, other.end), (10, 15));
    assert_eq!(sources.span_src_info("c.rs"), None);
}

#[test]
fn api_spans_convert_back_with_the_file_offset() {
    let mut sources = SpanSources::new();
    let info = sources.info_or_insert("main.rs", SpanSourceInfo { rustc_span_cx: 4, rustc_start_offset: 64 });
    assert_eq!(info.rustc_start_offset, 64);
    let api = ApiSpan { source: "main.rs".to_string(), start: 1, end: 3 };
    assert_eq!(to_rustc_span(&sources, &api), RustcSpan { lo: 65, hi: 67, ctxt: 4 });
}

#[test]
fn expanded_spans_report_their_call_site() {
    let mut cache = SpanSourceCache::new();
    let file = SpanOrigin::File { name: "src/lib.rs".to_string(), file_start: 1000 };
    let api = to_span(&mut cache, RustcSpan { lo: 1010, hi: 1025, ctxt: 0 }, &file);
    assert!(matches!(&api.source, SpanSourceKey::File(name) if name == "src/lib.rs"));
    assert_eq!((api.start, api.end), (10, 25));

    let call_site = RustcSpan { lo: 1100, hi: 1120, ctxt: 0 };
    let expanded = RustcSpan { lo: 5, hi: 9, ctxt: 7 };
    let api = to_span(&mut cache, expanded, &SpanOrigin::Macro { call_site });
    assert!(matches!(api.source, SpanSourceKey::Macro(7)));
    assert_eq!((api.start, api.end), (0, 20));
    assert_eq!(
        cache.get_span_src_info(&SpanSourceKey::Macro(7)),
        Some(SpanSourceInfo { rustc_span_cx: 7, rustc_start_offset: 1100 })
    );

    // A later span of the same expansion is relative to the first call site.
    let later = RustcSpan { lo: 1130, hi: 1140, ctxt: 0 };
    let api = to_span(&mut cache, RustcSpan { lo: 1, hi: 2, ctxt: 7 }, &SpanOrigin::Macro { call_site: later });
    assert_eq!((api.start, api.end), (30, 40));
}

#[test]
fn desugared_spans_are_told_apart_by_file_and_context() {
    let mut cache = SpanSourceCache::new();
    let call_site = RustcSpan { lo: 200, hi: 210, ctxt: 0 };
    let origin = SpanOrigin::Sugar { name: "a.rs".to_string(), call_site };
    let api = to_span(&mut cache, RustcSpan { lo: 0, hi: 3, ctxt: 2 }, &origin);
    assert!(matches!(&api.source, SpanSourceKey::Sugar(name, 2) if name == "a.rs"));
    assert_eq!((api.start, api.end), (0, 10));
    assert_eq!(cache.get_span_src_info(&SpanSourceKey::Sugar("b.rs".to_string(), 2)), None);
    assert_eq!(cache.get_span_src_info(&SpanSourceKey::Macro(2)), None);
}

#[test]
fn a_span_before_its_source_start_is_refused() {
    let mut cache = SpanSourceCache::new();
    let call_site = RustcSpan { lo: 300, hi: 310, ctxt: 0 };
    let first = try_to_span(&mut cache, RustcSpan { lo: 0, hi: 1, ctxt: 5 }, &SpanOrigin::Macro { call_site });
    assert_eq!(first.map(|s| (s.start, s.end)), Some((0, 10)));
    let earlier = RustcSpan { lo: 290, hi: 295, ctxt: 0 };
    let second = try_to_span(&mut cache, RustcSpan { lo: 0, hi: 1, ctxt: 5 }, &SpanOrigin::Macro { call_site: earlier });
    assert!(second.is_none());
}
