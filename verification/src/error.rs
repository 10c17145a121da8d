//! An error payload together with a description and the backtrace of the
//! place where the error was made.

use crate::backtrace::Backtrace;
use crate::text::{render_text, rendering};
use std::borrow::Cow;
use std::fmt::{Debug, Display, Write};
use vstd::prelude::*;
use vstd::string::to_string_from_display_ensures;

verus! {

/// `std::fmt::Error`, which a payload's `Display` or `Debug` returns when it
/// gives up.
#[verifier::external_type_specification]
#[verifier::external_body]
pub struct ExFmtError(std::fmt::Error);

/// The payload's own formatting failed, so there is no text to show.
#[derive(Debug, Clone, Copy, PartialEq, Eq)]
pub struct FormatError;

/// Formats `payload` by its `Display` into a fresh `String`, as `write!` with
/// `{}` does. An error can only come from the payload's own `Display`, and is
/// handed on. A text that comes back is the one `ToString::to_string` gives
/// for the payload, which std implements by the same formatting.
#[verifier::external_body]
fn display_text<E: Display>(payload: &E) -> (text: Result<String, std::fmt::Error>)
    ensures
        text matches Ok(t) ==> to_string_from_display_ensures::<E>(payload, t),
{
    let mut text = String::new();
    match write!(text, "{}", payload) {
        Ok(()) => Ok(text),
        Err(e) => Err(e),
    }
}

/// Formats `payload` by its `Debug` into a fresh `String`, as `write!` with
/// `{:?}` does. An error can only come from the payload's own `Debug`, and is
/// handed on. Nothing is claimed of the text.
#[verifier::external_body]
fn debug_text<E: Debug>(payload: &E) -> (text: Result<String, std::fmt::Error>) {
    let mut text = String::new();
    match write!(text, "{:?}", payload) {
        Ok(()) => Ok(text),
        Err(e) => Err(e),
    }
}

/// A payload of any type, wrapped together with a description, which may be
/// empty, and the backtrace that was captured when the error was made, if one
/// was.
pub struct WrappedError<E> {
    payload: E,
    description: Cow<'static, str>,
    trace: Option<Backtrace>,
}

impl<E> WrappedError<E> {
    /// The wrapped payload.
    pub closed spec fn spec_payload(&self) -> &E {
        &self.payload
    }

    /// The description; empty where none was given.
    pub closed spec fn spec_description(&self) -> &Cow<'static, str> {
        &self.description
    }

    /// The backtrace, if one was captured.
    pub closed spec fn spec_trace(&self) -> Option<&Backtrace> {
        match &self.trace {
            Some(trace) => Some(trace),
            None => None,
        }
    }

    /// `text` is this error laid out around `payload_text`: the description
    /// is this error's, and the backtrace section holds a backtrace exactly if
    /// this error has one.
    pub open spec fn laid_out(&self, payload_text: Seq<char>, text: Seq<char>) -> bool {
        exists|trace: Option<Seq<char>>|
            (trace is Some <==> self.trace() is Some) && text == #[trigger] rendering(
                payload_text,
                self.description()@,
                trace,
            )
    }

    /// `text` is this error laid out around some text of the payload.
    pub open spec fn laid_out_around_some(&self, text: Seq<char>) -> bool {
        exists|payload_text: Seq<char>| #[trigger] self.laid_out(payload_text, text)
    }

    /// Captures a backtrace and wraps `payload` without a description.
    pub fn new(payload: E) -> (error: Self)
        ensures
            *error.payload() == payload,
            error.description()@.len() == 0,
            error.trace() is Some,
    {
        proof {
            reveal_strlit("");
        }
        Self::with_backtrace(payload, Cow::Borrowed(""), Backtrace::capture())
    }

    /// Captures a backtrace and wraps `payload` with a description, which may
    /// be borrowed for good or owned.
    pub fn with_description(payload: E, description: Cow<'static, str>) -> (error: Self)
        ensures
            *error.payload() == payload,
            *error.description() == description,
            error.trace() is Some,
    {
        Self::with_backtrace(payload, description, Backtrace::capture())
    }

    /// Wraps `payload` with the given description and the given backtrace.
    pub fn with_backtrace(
        payload: E,
        description: Cow<'static, str>,
        trace: Option<Backtrace>,
    ) -> (error: Self)
        ensures
            *error.payload() == payload,
            *error.description() == description,
            match trace {
                Some(t) => error.trace() == Some(&t),
                None => error.trace() is None,
            },
    {
        WrappedError { payload, description, trace }
    }

    /// The wrapped payload.
    #[verifier::when_used_as_spec(spec_payload)]
    pub fn payload(&self) -> (payload: &E)
        ensures
            payload == self.payload(),
    {
        &self.payload
    }

    /// The description; empty where none was given.
    #[verifier::when_used_as_spec(spec_description)]
    pub fn description(&self) -> (description: &Cow<'static, str>)
        ensures
            description == self.description(),
    {
        &self.description
    }

    /// The backtrace, if one was captured.
    #[verifier::when_used_as_spec(spec_trace)]
    pub fn trace(&self) -> (trace: Option<&Backtrace>)
        ensures
            trace == self.trace(),
    {
        self.trace.as_ref()
    }
}

impl<E> WrappedError<E> {
    /// The description as a string slice.
    fn description_text(&self) -> (text: &str)
        ensures
            text@ == self.description()@,
    {
        match &self.description {
            Cow::Borrowed(text) => text,
            Cow::Owned(text) => text.as_str(),
        }
    }

    /// Lays this error out around a text that the caller has made of the
    /// payload: the text, the description if there is one, then the backtrace
    /// under its header, or the hint where none was captured. Reading the
    /// backtrace resolves it, if no one has done so before.
    pub fn text_with(&self, payload_text: &str) -> (text: String)
        ensures
            self.laid_out(payload_text@, text@),
    {
        match &self.trace {
            Some(trace) => {
                let trace_text = trace.render();
                let text = render_text(
                    payload_text,
                    self.description_text(),
                    Some(trace_text.as_str()),
                );
                assert(text@ == rendering(
                    payload_text@,
                    self.description()@,
                    Some(trace_text@),
                ));
                text
            },
            None => {
                let text = render_text(payload_text, self.description_text(), None);
                assert(text@ == rendering(payload_text@, self.description()@, None));
                text
            },
        }
    }

    /// The error as text, with the payload in its `Display` form. Fails only
    /// where the payload's own formatting fails, and then before the
    /// backtrace is touched.
    pub fn to_text(&self) -> (text: Result<String, FormatError>) where E: Display
        ensures
            text matches Ok(t) ==> exists|p: String| #[trigger]
                to_string_from_display_ensures::<E>(self.payload(), p) && self.laid_out(p@, t@),
    {
        let payload_text = display_text(&self.payload);
        let ghost given = payload_text;
        let text = self.text_from(payload_text);
        proof {
            if given is Ok {
                let p = given->Ok_0;
                assert(to_string_from_display_ensures::<E>(self.payload(), p) && self.laid_out(
                    p@,
                    text->Ok_0@,
                ));
            }
        }
        text
    }

    /// The error as text, with the payload in its `Debug` form. Fails only
    /// where the payload's own formatting fails, and then before the
    /// backtrace is touched.
    pub fn to_debug_text(&self) -> (text: Result<String, FormatError>) where E: Debug
        ensures
            text matches Ok(t) ==> self.laid_out_around_some(t@),
    {
        let payload_text = debug_text(&self.payload);
        let ghost given = payload_text;
        let text = self.text_from(payload_text);
        proof {
            if given is Ok {
                assert(self.laid_out(given->Ok_0@, text->Ok_0@));
            }
        }
        text
    }

    /// Lays this error out around what the payload's formatting gave: around
    /// its text where there is one, as [`WrappedError::text_with`] does, and
    /// not at all where the formatting failed, which is then the failure of
    /// the whole.
    pub fn text_from(&self, payload_text: Result<String, std::fmt::Error>) -> (text: Result<
        String,
        FormatError,
    >)
        ensures
            match payload_text {
                Ok(p) => match text {
                    Ok(t) => self.laid_out(p@, t@),
                    Err(_) => false,
                },
                Err(_) => text is Err,
            },
    {
        match payload_text {
            Ok(p) => Ok(self.text_with(p.as_str())),
            Err(_) => Err(FormatError),
        }
    }
}

impl<E> std::ops::Deref for WrappedError<E> {
    type Target = E;

    /// Read access to the payload, so that the error can stand where the
    /// payload is read.
    fn deref(&self) -> (payload: &E)
        ensures
            payload == self.payload(),
    {
        &self.payload
    }
}

impl<E> From<E> for WrappedError<E> {
    /// The same as [`WrappedError::new`]: captures a backtrace and wraps
    /// `payload` without a description.
    fn from(payload: E) -> (error: Self)
        ensures
            *error.payload() == payload,
            error.description()@.len() == 0,
            error.trace() is Some,
    {
        WrappedError::new(payload)
    }
}

impl<E> vstd::std_specs::convert::FromSpecImpl<E> for WrappedError<E> {
    /// The conversion captures a backtrace, so its result is no function of
    /// the payload: what it returns is stated on `from` itself.
    open spec fn obeys_from_spec() -> bool {
        false
    }

    open spec fn from_spec(payload: E) -> Self {
        arbitrary()
    }
}

impl<E: Default> Default for WrappedError<E> {
    /// The default payload, wrapped as [`WrappedError::new`] wraps it.
    fn default() -> (error: Self)
        ensures
            E::default.ensures((), *error.payload()),
            error.description()@.len() == 0,
            error.trace() is Some,
    {
        WrappedError::new(E::default())
    }
}

impl<E: Clone> Clone for WrappedError<E> {
    /// A copy of payload and description that shares the backtrace of the
    /// original.
    fn clone(&self) -> (other: Self)
        ensures
            cloned(*self.payload(), *other.payload()),
            other.description()@ == self.description()@,
            other.trace() == self.trace(),
    {
        let description: Cow<'static, str> = match &self.description {
            Cow::Borrowed(text) => Cow::Borrowed(*text),
            Cow::Owned(text) => Cow::Owned(text.clone()),
        };
        let trace = match &self.trace {
            Some(trace) => Some(trace.clone()),
            None => None,
        };
        WrappedError { payload: self.payload.clone(), description, trace }
    }
}

} // verus!
