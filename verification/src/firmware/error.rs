//! The firmware's errors: a kind, and an error with optional context that
//! knows whether the failed operation is worth retrying.

use crate::text::push_str;
use vstd::prelude::*;

verus! {

/// What went wrong. Errors of the allocator, of the I2C configuration and of
/// the HAL are carried as the text that they display.
#[derive(Debug, Clone, PartialEq, Eq)]
pub enum Error {
    NotInitialized,
    Locked,
    AllocationError(String),
    I2cConfig(String),
    Hal(String),
}

/// The text that `Display` writes for an error kind.
pub open spec fn error_kind_text(e: Error) -> Seq<char> {
    match e {
        Error::NotInitialized => "Not initialized"@,
        Error::Locked => "Locked"@,
        Error::AllocationError(msg) => msg@,
        Error::I2cConfig(msg) => msg@,
        Error::Hal(msg) => msg@,
    }
}

impl Error {
    /// An error of the HAL, given the text of its `Debug` form.
    pub fn hal(debug_text: String) -> (e: Error)
        ensures
            e == Error::Hal(debug_text),
    {
        Error::Hal(debug_text)
    }

    /// The error with a note on what was being done.
    pub fn with_context(self, context: &'static str) -> (e: Error_)
        ensures
            e.kind_of() == self,
            e.context_of() == Some(context@),
    {
        let e = Error_::from(self);
        proof {
            lemma_from_error(self);
        }
        e.with_context(context)
    }

    /// The text of the error, as `Display` writes it.
    pub fn to_string(&self) -> (s: String)
        ensures
            s@ == error_kind_text(*self),
    {
        proof {
            reveal_strlit("Not initialized");
            reveal_strlit("Locked");
        }
        match self {
            Error::NotInitialized => "Not initialized".to_owned(),
            Error::Locked => "Locked".to_owned(),
            Error::AllocationError(msg) => msg.clone(),
            Error::I2cConfig(msg) => msg.clone(),
            Error::Hal(msg) => msg.clone(),
        }
    }
}

/// The result of a fallible operation of the firmware.
pub type Result<T> = core::result::Result<T, Error_>;

/// An error with an optional note on what was being done.
#[derive(Debug)]
pub struct Error_ {
    kind: Error,
    context: Option<&'static str>,
}

/// The text that `Display` writes for an error with context.
pub open spec fn error_text(kind: Error, context: Option<Seq<char>>) -> Seq<char> {
    match context {
        Some(c) => error_kind_text(kind) + " ("@ + c + ")"@,
        None => error_kind_text(kind),
    }
}

impl Error_ {
    /// The kind of the error.
    pub closed spec fn kind_of(&self) -> Error {
        self.kind
    }

    /// The context of the error, if any.
    pub closed spec fn context_of(&self) -> Option<Seq<char>> {
        match self.context {
            Some(c) => Some(c@),
            None => None,
        }
    }

    /// Whether the operation failed only because a resource was locked, so
    /// that trying again may succeed.
    pub fn should_retry(&self) -> (retry: bool)
        ensures
            retry == (self.kind_of() == Error::Locked),
    {
        match self.kind {
            Error::Locked => true,
            _ => false,
        }
    }

    /// The same error, noting what was being done; an earlier context is replaced.
    pub fn with_context(self, context: &'static str) -> (e: Error_)
        ensures
            e.kind_of() == self.kind_of(),
            e.context_of() == Some(context@),
    {
        let mut e = self;
        e.context = Some(context);
        e
    }

    /// The error as `Display` writes it, e.g. `Locked (camera)`.
    pub fn to_string(&self) -> (s: String)
        ensures
            s@ == error_text(self.kind_of(), self.context_of()),
    {
        let mut s = self.kind.to_string();
        match self.context {
            Some(c) => {
                push_str(&mut s, " (");
                push_str(&mut s, c);
                push_str(&mut s, ")");
            },
            None => {},
        }
        s
    }
}

impl From<Error> for Error_ {
    fn from(kind: Error) -> (e: Error_) {
        Error_ { kind, context: None }
    }
}

impl vstd::std_specs::convert::FromSpecImpl<Error> for Error_ {
    open spec fn obeys_from_spec() -> bool {
        true
    }

    closed spec fn from_spec(kind: Error) -> Error_ {
        Error_ { kind, context: None }
    }
}

/// Converting an error kind gives an error of that kind without context.
pub proof fn lemma_from_error(kind: Error)
    ensures
        <Error_ as vstd::std_specs::convert::FromSpec<Error>>::from_spec(kind).kind_of() == kind,
        <Error_ as vstd::std_specs::convert::FromSpec<Error>>::from_spec(kind).context_of()
            == None::<Seq<char>>,
{
}

} // verus!
