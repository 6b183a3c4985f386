//! Locator syntax, as the `url` crate parses it.
//!
//! Nothing in this file is proved: the two functions at its end call the
//! `url` crate, and their contracts say only that the call's outcome is a
//! function of the texts handed in. Everything the rest of the crate proves
//! about resolution is proved over the two names declared here.

use vstd::prelude::*;

verus! {

/// Why a text could not be read as a locator.
#[derive(Debug)]
pub struct LocatorFault {
    /// The text is a relative reference and there was nothing to resolve it
    /// against. Every other fault means that the text is malformed.
    pub relative_without_base: bool,
    /// The parser's own description of the fault.
    pub reason: String,
}

/// What a `LocatorFault` holds, as mathematical values.
pub struct FaultView {
    pub relative_without_base: bool,
    pub reason: Seq<char>,
}

impl View for LocatorFault {
    type V = FaultView;

    open spec fn view(&self) -> FaultView {
        FaultView { relative_without_base: self.relative_without_base, reason: self.reason@ }
    }
}

/// The outcome of reading `input` as an absolute locator: its canonical
/// serialisation, or the fault.
pub uninterp spec fn parsed_locator(input: Seq<char>) -> Result<Seq<char>, FaultView>;

/// The outcome of reading `base` as an absolute locator and then resolving
/// `input` against it: the canonical serialisation of the result, or the
/// fault of whichever of the two steps failed first.
pub uninterp spec fn joined_locator(base: Seq<char>, input: Seq<char>) -> Result<
    Seq<char>,
    FaultView,
>;

/// The view of what the two parsing functions return.
pub open spec fn outcome_view(r: Result<String, LocatorFault>) -> Result<Seq<char>, FaultView> {
    match r {
        Ok(text) => Ok(text@),
        Err(fault) => Err(fault@),
    }
}

/// Calls `url::Url::parse` and hands back the serialisation of the locator it
/// built, or its error. Trusted: that the outcome depends on `input` alone,
/// which gives it the name `parsed_locator`. The flag of the fault is set for
/// `ParseError::RelativeUrlWithoutBase` and for no other error; the reason is
/// the error's `Display` text.
#[verifier::external_body]
pub(crate) fn parse_locator(input: &str) -> (r: Result<String, LocatorFault>)
    ensures
        outcome_view(r) == parsed_locator(input@),
{
    match url::Url::parse(input) {
        Ok(found) => Ok(String::from(found)),
        Err(e) => Err(
            LocatorFault {
                relative_without_base: e == url::ParseError::RelativeUrlWithoutBase,
                reason: e.to_string(),
            },
        ),
    }
}

/// Calls `url::Url::parse` on `base` and then `url::Url::join` on the result,
/// with `input`, and hands back the serialisation of the joined locator, or
/// the error of the call that failed. Trusted: that the outcome depends on the
/// two texts alone, which gives it the name `joined_locator`. The fault is
/// built as in `parse_locator`.
#[verifier::external_body]
pub(crate) fn join_locator(base: &str, input: &str) -> (r: Result<String, LocatorFault>)
    ensures
        outcome_view(r) == joined_locator(base@, input@),
{
    let joined = match url::Url::parse(base) {
        Ok(anchor) => anchor.join(input),
        Err(e) => Err(e),
    };
    match joined {
        Ok(found) => Ok(String::from(found)),
        Err(e) => Err(
            LocatorFault {
                relative_without_base: e == url::ParseError::RelativeUrlWithoutBase,
                reason: e.to_string(),
            },
        ),
    }
}

} // verus!
