use marker_driver::ids::TyDefIdLayout;
use marker_driver::lints::{check_expr, check_item, check_msg, FnItem, MethodCall};
use marker_driver::storage::Storage;

#[test]
fn uppercase_messages() {
    assert!(check_msg(Some("This message starts uppercase")));
    assert!(!check_msg(Some("this message is fine")));
    assert!(!check_msg(Some("")));
    assert!(!check_msg(None));
    assert!(check_msg(Some("Émoi")));
    assert!(!check_msg(Some("1 lint")));
    assert!(!check_msg(Some("= note")));
}

fn call(receiver: Option<TyDefIdLayout>, method: &str, args: Vec<Option<&str>>) -> MethodCall {
    MethodCall {
        receiver_adt: receiver,
        method: method.to_string(),
        args: args.into_iter().map(|a| a.map(String::from)).collect(),
    }
}

#[test]
fn emit_lint_calls_on_the_context() {
    let cx = TyDefIdLayout { krate: 3, index: 17 };
    let ids = vec![cx];
    assert!(check_expr(&call(Some(cx), "emit_lint", vec![None, None, Some("Bad")]), &ids));
    assert!(!check_expr(&call(Some(cx), "emit_lint", vec![None, None, Some("good")]), &ids));
    assert!(!check_expr(&call(Some(cx), "emit_lint", vec![None, Some("Bad")]), &ids));
    assert!(!check_expr(&call(Some(cx), "emit_lints", vec![None, None, Some("Bad")]), &ids));
    assert!(!check_expr(&call(Some(TyDefIdLayout { krate: 3, index: 18 }), "emit_lint", vec![None, None, Some("Bad")]), &ids));
    assert!(!check_expr(&call(None, "emit_lint", vec![None, None, Some("Bad")]), &ids));
    assert!(!check_expr(&call(Some(cx), "emit_lint", vec![None, None, None]), &ids));
}

fn path(segments: &[&str]) -> Option<Vec<String>> {
    Some(segments.iter().map(|s| s.to_string()).collect())
}

#[test]
fn span_parameters_of_public_functions() {
    let item = FnItem {
        is_pub: true,
        params: vec![path(&["marker_api", "Span"]), None, path(&["Spanned"]), path(&["Span"])],
    };
    assert_eq!(check_item(&item), vec![0, 3]);
    let private = FnItem { is_pub: false, params: item.params.clone() };
    assert!(check_item(&private).is_empty());
}

#[test]
fn storage_keeps_what_it_holds() {
    let storage = Storage::default();
    let x = storage.alloc_value(42u32);
    let s = storage.alloc_str("ident");
    let v = storage.alloc_slice(vec![1u8, 2, 3]);
    assert_eq!(*x, 42);
    assert_eq!(s, "ident");
    assert_eq!(v, &[1, 2, 3]);
}
