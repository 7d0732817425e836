//! The library's error type.
use vstd::prelude::*;

verus! {

/// What kind of error occurred.
#[derive(Clone, Copy, Debug, Eq, PartialEq, Structural)]
pub enum ErrorKind {
    Configuration,
    Other,
}

/// An error: its kind, an optional message and, where it was caused by
/// another error, that error's description.
#[derive(Clone, Debug)]
pub struct Error {
    pub kind: ErrorKind,
    pub message: Option<String>,
    pub source: Option<String>,
}

/// An error as plain values.
pub struct ErrorView {
    pub kind: ErrorKind,
    pub message: Option<Seq<char>>,
    pub source: Option<Seq<char>>,
}

/// The view of an optional string.
pub open spec fn opt_view(o: Option<String>) -> Option<Seq<char>> {
    match o {
        Some(s) => Some(s@),
        None => None,
    }
}

/// A copy of an optional string.
pub fn clone_opt_string(o: &Option<String>) -> (res: Option<String>)
    ensures
        res == *o,
{
    match o {
        Some(s) => Some(s.clone()),
        None => None,
    }
}

impl View for Error {
    type V = ErrorView;

    open spec fn view(&self) -> ErrorView {
        ErrorView { kind: self.kind, message: opt_view(self.message), source: opt_view(self.source) }
    }
}

/// The error of kind `Other` with `message` and no source.
pub open spec fn error_with(message: Seq<char>) -> ErrorView {
    ErrorView { kind: ErrorKind::Other, message: Some(message), source: None }
}

impl Error {
    /// An error of kind `Other` with the given message and no source.
    pub fn new(message: &str) -> (res: Error)
        ensures
            res@ == error_with(message@),
    {
        Error { kind: ErrorKind::Other, message: Some(message.to_owned()), source: None }
    }

    /// The same error, caused by the error that `source` describes.
    pub fn with_source(self, source: String) -> (res: Error)
        ensures
            res@ == (ErrorView { source: Some(source@), ..self@ }),
    {
        Error { source: Some(source), ..self }
    }
}

/// How the kind of an error is shown.
pub open spec fn kind_text(kind: ErrorKind) -> Seq<char> {
    match kind {
        ErrorKind::Configuration => "Configuration error"@,
        ErrorKind::Other => "Error"@,
    }
}

/// How an error is shown: its message (`Error` where it has none), then
/// its source in brackets where it has one.
pub open spec fn error_text(e: ErrorView) -> Seq<char> {
    let head = match e.message {
        Some(m) => m,
        None => "Error"@,
    };
    match e.source {
        Some(src) => head + ". (Source "@ + src + ")"@,
        None => head,
    }
}

impl ErrorKind {
    /// How the kind is shown (its `Display`).
    pub fn to_string(&self) -> (res: String)
        ensures
            res@ == kind_text(*self),
    {
        proof {
            reveal_strlit("Configuration error");
            reveal_strlit("Error");
        }
        match self {
            ErrorKind::Configuration => String::from_str("Configuration error"),
            ErrorKind::Other => String::from_str("Error"),
        }
    }
}

impl Error {
    /// How the error is shown (its `Display`).
    pub fn to_string(&self) -> (res: String)
        ensures
            res@ == error_text(self@),
    {
        proof {
            reveal_strlit("Error");
            reveal_strlit(". (Source ");
            reveal_strlit(")");
        }
        let mut res = match &self.message {
            Some(m) => m.clone(),
            None => String::from_str("Error"),
        };
        if let Some(source) = &self.source {
            res.append(". (Source ");
            res.append(source.as_str());
            res.append(")");
        }
        res
    }
}

/// Turns an absent value into an error with a message.
pub trait OptionExt<T>: Sized {
    /// The value, or an error with `message` where there is none.
    fn error(self, message: &str) -> (res: Result<T, Error>);

    /// The value, or an error with the message that `f` makes where there
    /// is none (`f` is called only then).
    fn or_error<F: FnOnce() -> String>(self, f: F) -> (res: Result<T, Error>)
        requires
            call_requires(f, ()),
    ;
}

impl<T> OptionExt<T> for Option<T> {
    fn error(self, message: &str) -> (res: Result<T, Error>)
        ensures
            match self {
                Some(v) => res == Ok::<T, Error>(v),
                None => res matches Err(e) && e@ == error_with(message@),
            },
    {
        match self {
            Some(v) => Ok(v),
            None => Err(Error::new(message)),
        }
    }

    fn or_error<F: FnOnce() -> String>(self, f: F) -> (res: Result<T, Error>)
        ensures
            match self {
                Some(v) => res == Ok::<T, Error>(v),
                None => res matches Err(e) && exists|m: String| call_ensures(f, (), m) && e@ == error_with(m@),
            },
    {
        match self {
            Some(v) => Ok(v),
            None => {
                let m = f();
                Err(Error::new(m.as_str()))
            },
        }
    }
}

/// Turns an error into one with another message, caused by the first.
pub trait ResultExt<T>: Sized {
    /// The value, or an error with `message` caused by the error there was.
    fn error(self, message: &str) -> (res: Result<T, Error>);

    /// The value, or an error with the message that `f` makes, caused by
    /// the error there was (`f` is called only then).
    fn or_error<F: FnOnce() -> String>(self, f: F) -> (res: Result<T, Error>)
        requires
            call_requires(f, ()),
    ;
}

impl<T> ResultExt<T> for Result<T, Error> {
    fn error(self, message: &str) -> (res: Result<T, Error>)
        ensures
            match self {
                Ok(v) => res == Ok::<T, Error>(v),
                Err(e) => res matches Err(f) && f@ == (ErrorView {
                    kind: ErrorKind::Other,
                    message: Some(message@),
                    source: Some(error_text(e@)),
                }),
            },
    {
        match self {
            Ok(v) => Ok(v),
            Err(e) => Err(Error::new(message).with_source(e.to_string())),
        }
    }

    fn or_error<F: FnOnce() -> String>(self, f: F) -> (res: Result<T, Error>)
        ensures
            match self {
                Ok(v) => res == Ok::<T, Error>(v),
                Err(e) => res matches Err(g) && exists|m: String| call_ensures(f, (), m) && g@ == (ErrorView {
                    kind: ErrorKind::Other,
                    message: Some(m@),
                    source: Some(error_text(e@)),
                }),
            },
    {
        match self {
            Ok(v) => Ok(v),
            Err(e) => {
                let m = f();
                Err(Error::new(m.as_str()).with_source(e.to_string()))
            },
        }
    }
}

} // verus!

verus! {

/// A new error shows its message; once given a source, it shows the
/// message, then the source in brackets.
pub proof fn lemma_error_text(message: Seq<char>, source: Seq<char>)
    ensures
        error_text(error_with(message)) == message,
        error_text(ErrorView { source: Some(source), ..error_with(message) }) == message + ". (Source "@
            + source + ")"@,
{
}

} // verus!
