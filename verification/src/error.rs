//! A polymorphic error type that can optionally contain a strongly-typed kind
//! for structural error handling (when an error needs to be matched on).
//! It's possible to construct it using just a message string and no kind.

use vstd::prelude::*;
use vstd::std_specs::convert::FromSpecImpl;

verus! {

/// Used when no additional kind information is needed for an error. It has
/// no values: an error of kind `Never` is always uncategorized.
#[derive(Debug)]
pub struct Never(pub core::convert::Infallible);

/// An error of another type that became the source of an [`Error`], held as
/// the messages of its chain of causes: its own message first, then the
/// message of its source, and so on.
#[derive(Debug)]
pub struct ErrorSource {
    pub messages: Vec<String>,
}

/// The categories of errors. The `Uncategorized` ones are used for general
/// unrecoverable errors that callers don't need to match on.
#[derive(Debug)]
pub enum ErrorCategory<Kind> {
    /// An error of a specific kind.
    Categorized(Kind),
    /// An error propagated to the caller with an additional `message`.
    Uncategorized { message: String, source: Option<ErrorSource> },
    /// An error propagated to the caller without any additional context.
    TransparentUncategorized(ErrorSource),
    /// Many related errors, propagated together with a `message`.
    ManyUncategorized { message: String, errors: Vec<Error<Kind>> },
}

/// An error, with or without a typed kind. See the constructors and the
/// [`Context`] extension trait.
#[derive(Debug)]
pub struct Error<Kind = Never> {
    category: ErrorCategory<Kind>,
}

impl<Kind> View for Error<Kind> {
    type V = ErrorCategory<Kind>;

    closed spec fn view(&self) -> ErrorCategory<Kind> {
        self.category
    }
}

/// The typed kind of an error of category `c`, if it has one.
pub open spec fn kind_of<Kind>(c: ErrorCategory<Kind>) -> Option<Kind> {
    match c {
        ErrorCategory::Categorized(kind) => Some(kind),
        _ => None,
    }
}

/// The category that [`Error::try_many`] gives `errors`, when there are two or more.
pub open spec fn many_of<Kind>(errors: Seq<Error<Kind>>, message: Seq<char>, r: Error<Kind>) -> bool {
    r@ matches ErrorCategory::ManyUncategorized { message: m, errors: es } && m@ == message && es@ == errors
}

impl<Kind> Error<Kind> {
    /// The category of the error.
    pub fn category(&self) -> (r: &ErrorCategory<Kind>)
        ensures
            *r == self@,
    {
        &self.category
    }

    /// Gives up the error for its category.
    pub fn into_category(self) -> (r: ErrorCategory<Kind>)
        ensures
            r == self@,
    {
        self.category
    }

    /// A reference to the error's typed kind; [`None`] for an uncategorized error.
    pub fn kind(&self) -> (r: Option<&Kind>)
        ensures
            r.is_some() == kind_of(self@).is_some(),
            r.is_some() ==> *r.unwrap() == kind_of(self@).unwrap(),
    {
        match &self.category {
            ErrorCategory::Categorized(kind) => Some(kind),
            _ => None,
        }
    }

    /// A new categorized error from the given kind.
    pub fn from_kind(kind: Kind) -> (r: Self)
        ensures
            r@ == ErrorCategory::<Kind>::Categorized(kind),
    {
        Self::from_category(ErrorCategory::Categorized(kind))
    }

    fn from_category(category: ErrorCategory<Kind>) -> (r: Self)
        ensures
            r@ == category,
    {
        Self { category }
    }

    /// Wraps an existing error, making it the source of this error, and adds
    /// more context with a message.
    pub fn wrap(source: ErrorSource, message: String) -> (r: Self)
        ensures
            r@ == (ErrorCategory::<Kind>::Uncategorized { message, source: Some(source) }),
    {
        Self::from_category(ErrorCategory::Uncategorized { message, source: Some(source) })
    }

    /// A root error that doesn't have a source error.
    pub fn root(message: String) -> (r: Self)
        ensures
            r@ == (ErrorCategory::<Kind>::Uncategorized { message, source: None }),
    {
        Self::from_category(ErrorCategory::Uncategorized { message, source: None })
    }

    /// `Ok` if `errors` is empty, the error itself if it holds exactly one,
    /// and an error holding all of them if there are more than one.
    pub fn try_many(errors: Vec<Self>, message: String) -> (r: Result<(), Self>)
        ensures
            errors@.len() == 0 ==> r is Ok,
            errors@.len() == 1 ==> r == Err::<(), Self>(errors@[0]),
            errors@.len() >= 2 ==> (r matches Err(e) && many_of(errors@, message@, e)),
    {
        if errors.len() == 0 {
            return Ok(());
        }
        if errors.len() == 1 {
            let mut errors = errors;
            let first = errors.remove(0);
            return Err(first);
        }
        Err(Self::many(errors, message))
    }

    /// Many related errors happened. They don't form a chain of causality,
    /// but they are related to each other.
    pub fn many(errors: Vec<Self>, message: String) -> (r: Self)
        ensures
            r@ == (ErrorCategory::<Kind>::ManyUncategorized { message, errors }),
    {
        Self::from_category(ErrorCategory::ManyUncategorized { message, errors })
    }

    /// An uncategorized error without any additional context that just
    /// transparently wraps the given error.
    pub fn transparent(error: ErrorSource) -> (r: Self)
        ensures
            r@ == ErrorCategory::<Kind>::TransparentUncategorized(error),
    {
        Self::from_category(ErrorCategory::TransparentUncategorized(error))
    }
}

impl<Kind> From<Kind> for Error<Kind> {
    fn from(value: Kind) -> (r: Self) {
        Self::from_kind(value)
    }
}

impl<Kind> FromSpecImpl<Kind> for Error<Kind> {
    open spec fn obeys_from_spec() -> bool {
        true
    }

    closed spec fn from_spec(value: Kind) -> Error<Kind> {
        Error { category: ErrorCategory::Categorized(value) }
    }
}


/// Converting a kind into an error categorizes the error by that kind.
pub proof fn law_from_kind_is_categorized<Kind>(kind: Kind)
    ensures
        <Error<Kind> as vstd::std_specs::convert::FromSpec<Kind>>::from_spec(kind)@
            == ErrorCategory::<Kind>::Categorized(kind),
        kind_of(<Error<Kind> as vstd::std_specs::convert::FromSpec<Kind>>::from_spec(kind)@) == Some(kind),
{
}

/// An error built from a kind gives that kind back; every error built from a
/// message alone has no kind.
pub proof fn law_kind_of_constructors<Kind>(kind: Kind, message: String, source: Option<ErrorSource>, errors: Vec<Error<Kind>>, inner: ErrorSource)
    ensures
        kind_of(ErrorCategory::<Kind>::Categorized(kind)) == Some(kind),
        kind_of(ErrorCategory::<Kind>::Uncategorized { message, source }) is None,
        kind_of(ErrorCategory::<Kind>::ManyUncategorized { message, errors }) is None,
        kind_of(ErrorCategory::<Kind>::TransparentUncategorized(inner)) is None,
{
}

/// The category of the error in `r` (meaningful only when `r` is `Err`).
pub open spec fn err_category<T, Kind>(r: Result<T, Error<Kind>>) -> ErrorCategory<Kind> {
    match r {
        Err(e) => e@,
        Ok(_) => arbitrary(),
    }
}

/// Extension trait for `Result` and `Option` to add context to errors.
/// Unlike `anyhow`'s `Context` trait there is a single method, which always
/// takes a closure.
pub trait Context<T, Kind>: Sized {
    /// The value holds no result ([`Err`] or [`None`]).
    spec fn is_missing(&self) -> bool;

    /// The result held (meaningful only when not [`Self::is_missing`]).
    spec fn present(&self) -> T;

    /// The category of the error made from a missing result and `message`.
    spec fn missing_category(&self, message: String) -> ErrorCategory<Kind>;

    /// Adds a message to the error if it is [`Err`] or [`None`]. This produces
    /// a [`Result`] with an uncategorized error. On a [`Result`], the error of
    /// the result becomes the source of the new error.
    fn context<F: FnOnce() -> String>(self, context: F) -> (r: Result<T, Error<Kind>>)
        requires
            call_requires(context, ()),
        ensures
            !self.is_missing() ==> r == Ok::<T, Error<Kind>>(self.present()),
            self.is_missing() ==> r is Err,
            self.is_missing() ==> exists|message: String|
                call_ensures(context, (), message) && err_category(r) == self.missing_category(message),
    ;
}

impl<T, Kind> Context<T, Kind> for Result<T, ErrorSource> {
    open spec fn is_missing(&self) -> bool {
        self is Err
    }

    open spec fn present(&self) -> T {
        self->Ok_0
    }

    /// The error of the result becomes the source of the new error.
    open spec fn missing_category(&self, message: String) -> ErrorCategory<Kind> {
        ErrorCategory::Uncategorized { message, source: Some(self->Err_0) }
    }

    fn context<F: FnOnce() -> String>(self, context: F) -> Result<T, Error<Kind>> {
        let ghost whole = self;
        match self {
            Ok(ok) => Ok(ok),
            Err(source) => {
                let message = context();
                let r = Err(Error::wrap(source, message));
                assert(err_category(r) == <Self as Context<T, Kind>>::missing_category(&whole, message));
                r
            },
        }
    }
}

impl<T, Kind> Context<T, Kind> for Option<T> {
    open spec fn is_missing(&self) -> bool {
        self is None
    }

    open spec fn present(&self) -> T {
        self->Some_0
    }

    /// A root error with the message and no source.
    open spec fn missing_category(&self, message: String) -> ErrorCategory<Kind> {
        ErrorCategory::Uncategorized { message, source: None }
    }

    fn context<F: FnOnce() -> String>(self, context: F) -> Result<T, Error<Kind>> {
        let ghost whole = self;
        match self {
            Some(ok) => Ok(ok),
            None => {
                let message = context();
                let r = Err(Error::root(message));
                assert(err_category(r) == <Self as Context<T, Kind>>::missing_category(&whole, message));
                r
            },
        }
    }
}


/// Adding context to a missing result makes an uncategorized error with the
/// message: the error of a `Result` becomes its source, a `None` has none.
/// A present result is passed on unchanged.
pub proof fn law_context_keeps_the_cause<T, Kind>(r: Result<T, ErrorSource>, o: Option<T>, message: String)
    ensures
        <Result<T, ErrorSource> as Context<T, Kind>>::is_missing(&r) <==> r is Err,
        r matches Err(source) ==> <Result<T, ErrorSource> as Context<T, Kind>>::missing_category(&r, message)
            == (ErrorCategory::<Kind>::Uncategorized { message, source: Some(source) }),
        r matches Ok(v) ==> <Result<T, ErrorSource> as Context<T, Kind>>::present(&r) == v,
        <Option<T> as Context<T, Kind>>::is_missing(&o) <==> o is None,
        <Option<T> as Context<T, Kind>>::missing_category(&o, message) == (ErrorCategory::<Kind>::Uncategorized {
            message,
            source: None,
        }),
        o matches Some(v) ==> <Option<T> as Context<T, Kind>>::present(&o) == v,
{
}

} // verus!
