//! The plain parts of a structured error report: a stable code, a class, the
//! message, and diagnostic key/value details. Every report of this library
//! is owned by `INDEXING`, has contract version 1.0.0, error severity, and is
//! not retryable (the functions below state these constants); a caller that assembles its own error value from these
//! parts supplies the execution context, and decides which details its
//! error type accepts.

use crate::message::{decimal_text, push_decimal};
use vstd::prelude::*;

verus! {

/// Broad class of a reported failure.
#[derive(Clone, Copy, Debug, PartialEq, Eq, Structural)]
pub enum CoreErrorClass {
    /// A caller broke a contract of the operation.
    Contract,
    /// An input value is invalid.
    Validation,
    /// A resource of the library ran out.
    Resource,
    /// A step of a longer operation failed.
    Execution,
}

/// The parts of one error report.
#[derive(Debug)]
pub struct CoreErrorParts {
    /// Stable error code, such as `INDEXING.UPDATE.002`.
    pub code: String,
    /// Class of the failure.
    pub class: CoreErrorClass,
    /// Human-readable message.
    pub message: String,
    /// Diagnostic details as (key, value) pairs, in report order.
    pub details: Vec<(String, String)>,
}

/// Value of a [`CoreErrorParts`].
pub struct CorePartsView {
    pub code: Seq<char>,
    pub class: CoreErrorClass,
    pub message: Seq<char>,
    pub details: Seq<(Seq<char>, Seq<char>)>,
}

/// The texts of a list of details.
pub open spec fn detail_views(d: Seq<(String, String)>) -> Seq<(Seq<char>, Seq<char>)> {
    Seq::new(d.len(), |i: int| (d[i].0@, d[i].1@))
}

impl View for CoreErrorParts {
    type V = CorePartsView;

    open spec fn view(&self) -> CorePartsView {
        CorePartsView {
            code: self.code@,
            class: self.class,
            message: self.message@,
            details: detail_views(self.details@),
        }
    }
}

/// A report made of the given parts.
pub open spec fn core_parts(
    code: Seq<char>,
    class: CoreErrorClass,
    message: Seq<char>,
    details: Seq<(Seq<char>, Seq<char>)>,
) -> CorePartsView {
    CorePartsView { code, class, message, details }
}

/// The owner named in every report.
pub fn core_error_owner() -> (s: &'static str)
    ensures
        s@ == "INDEXING"@,
{
    "INDEXING"
}

/// The contract version (major, minor, patch) of every report.
pub fn core_error_version() -> (v: (u64, u64, u64))
    ensures
        v == (1u64, 0u64, 0u64),
{
    (1, 0, 0)
}

/// The severity of every report: an error.
pub fn core_error_severity() -> (s: &'static str)
    ensures
        s@ == "error"@,
{
    "error"
}

/// Whether the failure of a report may go away when the same request is
/// made again: never, for every report of this library.
pub fn core_error_is_retryable() -> (r: bool)
    ensures
        !r,
{
    false
}

/// One detail with key `key`.
pub fn detail(key: &str, value: String) -> (d: (String, String))
    ensures
        d.0@ == key@,
        d.1@ == value@,
{
    (key.to_owned(), value)
}

/// Decimal notation of `n` as a string.
pub fn decimal_string(n: u128) -> (s: String)
    ensures
        s@ == decimal_text(n as nat),
{
    let mut s = String::new();
    push_decimal(&mut s, n);
    s
}

/// A report of the given parts.
pub fn core_error_parts_of(
    code: &str,
    class: CoreErrorClass,
    message: String,
    details: Vec<(String, String)>,
) -> (r: CoreErrorParts)
    ensures
        r@ == core_parts(code@, class, message@, detail_views(details@)),
{
    CoreErrorParts { code: code.to_owned(), class, message, details }
}

/// A copy of a report with `extra` details appended.
pub fn with_details(parts: CoreErrorParts, extra: Vec<(String, String)>) -> (r: CoreErrorParts)
    ensures
        r@ == core_parts(parts@.code, parts@.class, parts@.message, parts@.details + detail_views(extra@)),
{
    let CoreErrorParts { code, class, message, details } = parts;
    let mut details = details;
    let mut extra = extra;
    let ghost d0 = details@;
    let ghost e0 = extra@;
    details.append(&mut extra);
    assert(detail_views(details@) =~= detail_views(d0) + detail_views(e0));
    CoreErrorParts { code, class, message, details }
}

} // verus!
