//! A stack trace that is captured cheaply and turned into text on first use.

use std::sync::{Arc, Mutex, MutexGuard};
use vstd::prelude::*;

verus! {

/// The stack as the `backtrace` crate records it, a `backtrace::Backtrace`.
/// Nothing in it is visible here: it is captured, resolved and formatted by
/// that crate alone.
#[verifier::external_body]
struct CapturedStack {
    frames: backtrace::Backtrace,
}

/// `backtrace::Backtrace::new_unresolved` records the addresses of the current
/// call stack without looking up any symbol. Which frames it finds depends on
/// the caller and the platform, so nothing is claimed of the result.
#[verifier::external_body]
fn capture_stack() -> (stack: CapturedStack) {
    CapturedStack { frames: backtrace::Backtrace::new_unresolved() }
}

/// `backtrace::Backtrace::resolve` looks up the symbols of every recorded
/// frame. What it finds depends on the debug information at hand, so nothing
/// is claimed of the stack afterwards.
#[verifier::external_body]
fn resolve_stack(stack: &mut CapturedStack) {
    stack.frames.resolve()
}

/// The `Debug` form of `backtrace::Backtrace`: one entry per frame, in the
/// short style. The text depends on the symbols found and on the current
/// directory, so nothing is claimed of it.
#[verifier::external_body]
fn stack_text(stack: &CapturedStack) -> (text: String) {
    format!("{:?}", stack.frames)
}

/// `std::sync::Mutex`: the lock around the state that the clones of a handle
/// share. What it guards can change between any two calls, so nothing in it is
/// visible here.
#[verifier::external_type_specification]
#[verifier::external_body]
#[verifier::reject_recursive_types(T)]
pub struct ExMutex<T: ?Sized>(Mutex<T>);

/// `std::sync::MutexGuard`: exclusive access to what a `Mutex` guards, given
/// up when the guard is dropped.
#[verifier::external_type_specification]
#[verifier::external_body]
#[verifier::reject_recursive_types(T)]
pub struct ExMutexGuard<'a, T: ?Sized + 'a>(MutexGuard<'a, T>);

/// The text of the state that a lock was made around; `None` where that state
/// was unresolved. A lock is made once, so this never changes.
pub uninterp spec fn made_around(cell: Mutex<BacktraceRaw>) -> Option<Seq<char>>;

/// `std::sync::Mutex::new` puts the value it is given behind a fresh,
/// unlocked lock: the lock is made around that value.
#[verifier::external_body]
fn new_cell(raw: BacktraceRaw) -> (cell: Mutex<BacktraceRaw>)
    ensures
        made_around(cell) == raw@,
{
    Mutex::new(raw)
}

/// `std::sync::Mutex::lock`, with a poisoned lock recovered by
/// `PoisonError::into_inner`: blocks until the lock is free and hands out the
/// guard in either case. The call does not return while the calling thread
/// itself holds the lock; this module locks in one place only and drops the
/// guard before it returns. Nothing is claimed of what the guard holds.
#[verifier::external_body]
fn lock_recovering<'a, T>(cell: &'a Mutex<T>) -> (guard: MutexGuard<'a, T>) {
    match cell.lock() {
        Ok(guard) => guard,
        Err(poisoned) => poisoned.into_inner(),
    }
}

/// `DerefMut::deref_mut` of `std::sync::MutexGuard`: the guarded value, for as
/// long as the guard is borrowed. Nothing is claimed of the value.
#[verifier::external_body]
fn guarded<'a, 'b, T>(guard: &'a mut MutexGuard<'b, T>) -> (value: &'a mut T) {
    &mut **guard
}

/// `Clone::clone` of `std::sync::Arc`: a second owner of the same allocation.
#[verifier::external_body]
fn share<T>(owner: &Arc<T>) -> (other: Arc<T>)
    ensures
        other == *owner,
{
    Arc::clone(owner)
}

/// A captured stack together with its text, once that has been computed.
pub struct BacktraceRaw {
    backtrace: CapturedStack,
    readable: Option<String>,
}

impl View for BacktraceRaw {
    type V = Option<Seq<char>>;

    /// The text of the backtrace, or `None` while it is unresolved.
    closed spec fn view(&self) -> Option<Seq<char>> {
        match self.readable {
            Some(text) => Some(text@),
            None => None,
        }
    }
}

impl BacktraceRaw {
    /// What one call of [`BacktraceRaw::ensure_resolved`] does: afterwards the
    /// text is there, and a text that was there before is left alone, together
    /// with the stack it was made from.
    pub open spec fn resolves_to(self, after: Self) -> bool {
        &&& after@ is Some
        &&& self@ is Some ==> after == self
    }

    /// Creates a new unresolved (thin) backtrace of the current call stack.
    pub fn new_thin() -> (raw: Self)
        ensures
            raw@ is None,
    {
        BacktraceRaw { backtrace: capture_stack(), readable: None }
    }

    /// Whether the text has been computed.
    pub fn is_resolved(&self) -> (resolved: bool)
        ensures
            resolved == (self@ is Some),
    {
        self.readable.is_some()
    }

    /// Ensures that the backtrace has been resolved: computes the text unless
    /// it is there already.
    pub fn ensure_resolved(&mut self)
        ensures
            old(self).resolves_to(*final(self)),
    {
        if self.readable.is_none() {
            resolve_stack(&mut self.backtrace);
            let text = stack_text(&self.backtrace);
            self.keep_first(text);
        }
    }

    /// Stores `text` as the text of this backtrace unless one is stored
    /// already: the first text stays for good.
    pub fn keep_first(&mut self, text: String)
        ensures
            old(self).resolves_to(*final(self)),
            old(self)@ is None ==> final(self)@ == Some(text@),
    {
        if self.readable.is_none() {
            self.readable = Some(text);
        }
    }

    /// The text, if it has been computed.
    pub fn readable(&self) -> (text: Option<&str>)
        ensures
            match text {
                Some(t) => self@ == Some(t@),
                None => self@ is None,
            },
    {
        match &self.readable {
            Some(text) => Some(text.as_str()),
            None => None,
        }
    }
}

/// The settings that switch capturing on: `1`, `true` and `full`, as for
/// `RUST_BACKTRACE`. Any other text, the empty one of an unset variable
/// included, leaves it off.
pub open spec fn enables_capture(setting: Seq<char>) -> bool {
    setting == "1"@ || setting == "true"@ || setting == "full"@
}

/// Whether `setting`, the value of the capture toggle, asks for backtraces.
pub fn capture_enabled(setting: &str) -> (enabled: bool)
    ensures
        enabled == enables_capture(setting@),
{
    let given = setting.to_owned();
    given == "1".to_owned() || given == "true".to_owned() || given == "full".to_owned()
}

/// The backtrace of one error: a handle that all clones of the error share.
pub struct Backtrace {
    inner: Arc<Mutex<BacktraceRaw>>,
}

impl Backtrace {
    /// The text with which this backtrace was captured: `None` where it was
    /// captured unresolved, with the work of resolving left to the first
    /// reader.
    pub closed spec fn captured_text(&self) -> Option<Seq<char>> {
        made_around(*self.inner)
    }

    /// Always captures a new backtrace, without resolving it.
    pub fn capture() -> (trace: Option<Self>)
        ensures
            match trace {
                Some(t) => t.captured_text() is None,
                None => false,
            },
    {
        let raw = BacktraceRaw::new_thin();
        Some(Backtrace { inner: Arc::new(new_cell(raw)) })
    }

    /// Captures a new backtrace if `setting`, the value of the capture toggle,
    /// asks for it.
    pub fn capture_if_enabled(setting: &str) -> (trace: Option<Self>)
        ensures
            trace is Some <==> enables_capture(setting@),
            trace matches Some(t) ==> t.captured_text() is None,
    {
        if capture_enabled(setting) {
            Self::capture()
        } else {
            None
        }
    }

    /// The text of the backtrace. The first reader resolves it, under the
    /// lock; every later reader, through this handle or a clone of it, finds
    /// the text in place and copies it.
    pub fn render(&self) -> (text: String) {
        let mut guard = lock_recovering(&self.inner);
        let raw = guarded(&mut guard);
        read_resolved(raw)
    }
}

impl Clone for Backtrace {
    /// A second handle to the same backtrace.
    fn clone(&self) -> (other: Self)
        ensures
            other == *self,
    {
        Backtrace { inner: share(&self.inner) }
    }
}

/// Resolves `raw` if need be and copies its text out.
pub fn read_resolved(raw: &mut BacktraceRaw) -> (text: String)
    ensures
        old(raw).resolves_to(*final(raw)),
        final(raw)@ == Some(text@),
{
    raw.ensure_resolved();
    match raw.readable() {
        Some(t) => t.to_owned(),
        None => String::new(),
    }
}

/// Resolving is idempotent: a second call changes nothing, so every reader
/// after the first sees the text that the first one saw.
pub proof fn lemma_resolved_once(before: BacktraceRaw, first: BacktraceRaw, second: BacktraceRaw)
    requires
        before.resolves_to(first),
        first.resolves_to(second),
    ensures
        second == first,
        second@ == first@,
{
}

} // verus!
