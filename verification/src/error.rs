//! Errors of the board support crate: what went wrong, and optionally where.

use crate::text::push_str;
use vstd::prelude::*;

verus! {

/// What went wrong. Errors of the allocator, of the I2C configuration and of
/// the HAL are carried as the text that they display.
#[derive(Debug, Clone, PartialEq, Eq)]
pub enum ErrorKind {
    NotInitialized,
    Timeout,
    InvalidArgument,
    Allocation(String),
    I2cConfig(String),
    Hal(String),
}

/// The text that `Display` writes for an error kind.
pub open spec fn kind_text(kind: ErrorKind) -> Seq<char> {
    match kind {
        ErrorKind::NotInitialized => "Not initialized"@,
        ErrorKind::Timeout => "Timeout"@,
        ErrorKind::InvalidArgument => "Invalid argument"@,
        ErrorKind::Allocation(msg) => msg@,
        ErrorKind::I2cConfig(msg) => msg@,
        ErrorKind::Hal(msg) => msg@,
    }
}

impl ErrorKind {
    /// The text of the kind, as `Display` writes it.
    pub fn to_string(&self) -> (s: String)
        ensures
            s@ == kind_text(*self),
    {
        proof {
            reveal_strlit("Not initialized");
            reveal_strlit("Timeout");
            reveal_strlit("Invalid argument");
        }
        match self {
            ErrorKind::NotInitialized => "Not initialized".to_owned(),
            ErrorKind::Timeout => "Timeout".to_owned(),
            ErrorKind::InvalidArgument => "Invalid argument".to_owned(),
            ErrorKind::Allocation(msg) => msg.clone(),
            ErrorKind::I2cConfig(msg) => msg.clone(),
            ErrorKind::Hal(msg) => msg.clone(),
        }
    }
}

/// The result of a fallible operation of the board.
pub type Result<T> = core::result::Result<T, Error>;

/// An error kind with an optional note on what was being done.
#[derive(Debug)]
pub struct Error {
    kind: ErrorKind,
    context: Option<&'static str>,
}

/// The text that `Display` writes for an error: the kind's text, then the
/// context in parentheses when there is one.
pub open spec fn error_text(kind: ErrorKind, context: Option<Seq<char>>) -> Seq<char> {
    match context {
        Some(c) => kind_text(kind) + " ("@ + c + ")"@,
        None => kind_text(kind),
    }
}

impl Error {
    /// The kind of the error.
    pub closed spec fn kind_of(&self) -> ErrorKind {
        self.kind
    }

    /// The context of the error, if any.
    pub closed spec fn context_of(&self) -> Option<Seq<char>> {
        match self.context {
            Some(c) => Some(c@),
            None => None,
        }
    }

    /// An error without context.
    pub fn new(kind: ErrorKind) -> (e: Error)
        ensures
            e.kind_of() == kind,
            e.context_of() == None::<Seq<char>>,
    {
        Error { kind, context: None }
    }

    /// An error of the HAL, given the text of its `Debug` form.
    pub fn hal(debug_text: String) -> (e: Error)
        ensures
            e.kind_of() == ErrorKind::Hal(debug_text),
            e.context_of() == None::<Seq<char>>,
    {
        Error::new(ErrorKind::Hal(debug_text))
    }

    /// An allocation error, given the text that it displays.
    pub fn allocation(text: String) -> (e: Error)
        ensures
            e.kind_of() == ErrorKind::Allocation(text),
            e.context_of() == None::<Seq<char>>,
    {
        Error::new(ErrorKind::Allocation(text))
    }

    /// An I2C configuration error, given the text that it displays.
    pub fn i2c_config(text: String) -> (e: Error)
        ensures
            e.kind_of() == ErrorKind::I2cConfig(text),
            e.context_of() == None::<Seq<char>>,
    {
        Error::new(ErrorKind::I2cConfig(text))
    }

    /// The same error, noting what was being done; an earlier context is replaced.
    pub fn with_context(self, context: &'static str) -> (e: Error)
        ensures
            e.kind_of() == self.kind_of(),
            e.context_of() == Some(context@),
    {
        let mut e = self;
        e.context = Some(context);
        e
    }

    /// The kind of the error.
    pub fn kind(&self) -> (k: &ErrorKind)
        ensures
            *k == self.kind_of(),
    {
        &self.kind
    }

    /// The error as `Display` writes it, e.g. `Invalid argument (tone frequency)`.
    pub fn to_string(&self) -> (s: String)
        ensures
            s@ == error_text(self.kind_of(), self.context_of()),
    {
        let mut s = self.kind.to_string();
        match self.context {
            Some(c) => {
                push_str(&mut s, " (");
                push_str(&mut s, c);
                push_str(&mut s, ")");
            },
            None => {},
        }
        s
    }
}

impl From<ErrorKind> for Error {
    fn from(kind: ErrorKind) -> (e: Error) {
        Error { kind, context: None }
    }
}

impl vstd::std_specs::convert::FromSpecImpl<ErrorKind> for Error {
    open spec fn obeys_from_spec() -> bool {
        true
    }

    closed spec fn from_spec(kind: ErrorKind) -> Error {
        Error { kind, context: None }
    }
}

/// Converting an error kind gives an error of that kind without context.
pub proof fn lemma_from_kind(kind: ErrorKind)
    ensures
        <Error as vstd::std_specs::convert::FromSpec<ErrorKind>>::from_spec(kind).kind_of() == kind,
        <Error as vstd::std_specs::convert::FromSpec<ErrorKind>>::from_spec(kind).context_of()
            == None::<Seq<char>>,
{
}

} // verus!
