//! The error taxonomy that every operation reports in.

use crate::protected::Cred;
use crate::protected::CredView;
use vstd::prelude::*;

verus! {

/// Why an operation failed.
#[derive(Debug, Clone, PartialEq, Eq)]
pub enum Error {
    /// The platform reported a failure of no more specific kind. The
    /// platform's status code is attached.
    PlatformFailure(i32),
    /// The secure store itself could not be reached: it is unavailable,
    /// read-only, absent or invalid. The platform's status code is attached.
    NoStorageAccess(i32),
    /// An operation on a single credential found none.
    NoEntry,
    /// The caller supplied a parameter that is not acceptable. The first text
    /// names the parameter, the second says what is wrong with it.
    Invalid(String, String),
    /// More than one stored secret matches a specifier that has to match one.
    /// Each candidate is a wrapper pinned to one of the matching secrets.
    Ambiguous(Vec<Cred>),
    /// The store cannot do what was asked of it. The text says why.
    NotSupportedByStore(String),
}

/// The mathematical value of an [`Error`].
pub enum ErrorView {
    PlatformFailure(i32),
    NoStorageAccess(i32),
    NoEntry,
    Invalid(Seq<char>, Seq<char>),
    Ambiguous(Seq<CredView>),
    NotSupportedByStore(Seq<char>),
}

impl View for Error {
    type V = ErrorView;

    open spec fn view(&self) -> ErrorView {
        match self {
            Error::PlatformFailure(code) => ErrorView::PlatformFailure(*code),
            Error::NoStorageAccess(code) => ErrorView::NoStorageAccess(*code),
            Error::NoEntry => ErrorView::NoEntry,
            Error::Invalid(parameter, reason) => ErrorView::Invalid(parameter@, reason@),
            Error::Ambiguous(candidates) => ErrorView::Ambiguous(candidates.deep_view()),
            Error::NotSupportedByStore(reason) => ErrorView::NotSupportedByStore(reason@),
        }
    }
}

impl DeepView for Error {
    type V = ErrorView;

    open spec fn deep_view(&self) -> ErrorView {
        self@
    }
}

/// The outcome `r` is the one that `expected` describes.
pub open spec fn describes<T: DeepView>(
    expected: Result<T::V, ErrorView>,
    r: Result<T, Error>,
) -> bool {
    match r {
        Ok(value) => expected == Ok::<T::V, ErrorView>(value.deep_view()),
        Err(error) => expected == Err::<T::V, ErrorView>(error@),
    }
}

/// The outcome `r` refuses a map of entries for a key that is not among
/// `keys`, naming one such key.
pub open spec fn refuses_unknown_key<T>(
    r: Result<T, Error>,
    keys: Seq<Seq<char>>,
    entries: Seq<(Seq<char>, Seq<char>)>,
) -> bool {
    &&& r matches Err(error)
    &&& error@ matches ErrorView::Invalid(parameter, reason)
    &&& crate::attributes::unknown_key(keys, entries, parameter)
    &&& reason == "unknown key"@
}

/// The outcome of an operation that first checks a map of entries against
/// the keys it accepts: with a key that is not accepted the map is refused,
/// and otherwise the outcome is the one that `expected` describes.
pub open spec fn checked_outcome<T: DeepView>(
    keys: Seq<Seq<char>>,
    entries: Seq<(Seq<char>, Seq<char>)>,
    expected: Result<T::V, ErrorView>,
    r: Result<T, Error>,
) -> bool {
    if crate::attributes::all_allowed(keys, entries) {
        describes(expected, r)
    } else {
        refuses_unknown_key(r, keys, entries)
    }
}

/// An `Invalid` error made of two texts.
pub(crate) fn invalid(parameter: &str, reason: &str) -> (e: Error)
    ensures
        e@ == ErrorView::Invalid(parameter@, reason@),
{
    Error::Invalid(parameter.to_owned(), reason.to_owned())
}

} // verus!
