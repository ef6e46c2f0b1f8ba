use marker_driver::error::{Context, Error, ErrorCategory, ErrorSource};

#[derive(Debug, PartialEq)]
enum Kind {
    Broken(u32),
}

fn source(msg: &str) -> ErrorSource {
    ErrorSource { messages: vec![msg.to_string(), "caused by io".to_string()] }
}

#[test]
fn kinds_of_errors() {
    let e: Error<Kind> = Error::from_kind(Kind::Broken(3));
    assert_eq!(e.kind(), Some(&Kind::Broken(3)));
    let e: Error<Kind> = Error::from(Kind::Broken(4));
    assert_eq!(e.kind(), Some(&Kind::Broken(4)));
    let e: Error<Kind> = Error::root("no kind".to_string());
    assert_eq!(e.kind(), None);
    assert!(matches!(e.category(), ErrorCategory::Uncategorized { message, source: None } if message == "no kind"));
}

#[test]
fn wrap_and_transparent_keep_the_source() {
    let e: Error = Error::wrap(source("disk full"), "while saving".to_string());
    match e.category() {
        ErrorCategory::Uncategorized { message, source: Some(src) } => {
            assert_eq!(message, "while saving");
            assert_eq!(src.messages, vec!["disk full".to_string(), "caused by io".to_string()]);
        },
        other => panic!("unexpected {other:?}"),
    }
    let e: Error = Error::transparent(source("bad"));
    assert!(matches!(e.into_category(), ErrorCategory::TransparentUncategorized(s) if s.messages[0] == "bad"));
}

#[test]
fn try_many_by_count() {
    assert!(Error::<Kind>::try_many(vec![], "many".to_string()).is_ok());

    let one = Error::<Kind>::try_many(vec![Error::from_kind(Kind::Broken(1))], "many".to_string());
    assert_eq!(one.unwrap_err().kind(), Some(&Kind::Broken(1)));

    let errors = vec![Error::from_kind(Kind::Broken(1)), Error::root("second".to_string())];
    let many = Error::<Kind>::try_many(errors, "two failures".to_string()).unwrap_err();
    assert_eq!(many.kind(), None);
    match many.category() {
        ErrorCategory::ManyUncategorized { message, errors } => {
            assert_eq!(message, "two failures");
            assert_eq!(errors.len(), 2);
            assert_eq!(errors[0].kind(), Some(&Kind::Broken(1)));
        },
        other => panic!("unexpected {other:?}"),
    }
}

#[test]
fn context_on_options_and_results() {
    let some: Result<u32, Error> = Some(5).context(|| "unused".to_string());
    assert_eq!(some.unwrap(), 5);

    let none: Result<u32, Error> = None.context(|| "value missing".to_string());
    assert!(matches!(none.unwrap_err().category(), ErrorCategory::Uncategorized { message, source: None } if message == "value missing"));

    let ok: Result<u32, Error> = Ok::<u32, ErrorSource>(1).context(|| "unused".to_string());
    assert_eq!(ok.unwrap(), 1);

    let err: Result<u32, Error> = Err::<u32, ErrorSource>(source("denied")).context(|| "reading the lint crates".to_string());
    match err.unwrap_err().into_category() {
        ErrorCategory::Uncategorized { message, source: Some(src) } => {
            assert_eq!(message, "reading the lint crates");
            assert_eq!(src.messages[0], "denied");
        },
        other => panic!("unexpected {other:?}"),
    }
}
