//! Error values that remember where they were created.
//!
//! A [`backtrace::Backtrace`] records the call stack cheaply and turns it into
//! text only when somebody reads it; the text is computed once and shared by
//! every clone of the handle. The [`text`] module fixes the layout of a
//! rendered error and proves what can and cannot occur in it.

pub mod backtrace;
pub mod error;
pub mod text;
