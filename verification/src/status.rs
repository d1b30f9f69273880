//! Status codes and diagnostics of the protocol entry point.

use crate::error::{decimal, EfiError, Error};
use r_efi::efi;
use vstd::prelude::*;
use vstd::string::StringExecFns;

verus! {

/// `r_efi::base::Status`, which the library hands out without looking into it.
#[verifier::external_type_specification]
#[verifier::external_body]
pub struct ExStatus(r_efi::base::Status);

/// The integer that a status code holds. The function has no definition here: it stands
/// for the integer that `Status::from_usize` was called with.
pub uninterp spec fn status_value(status: r_efi::base::Status) -> usize;

/// `Status::from_usize` of `r_efi` wraps an integer into a status code. The contract is not
/// proved: it says that the status code which the call returns holds the integer `v`.
pub assume_specification[ r_efi::base::Status::from_usize ](v: usize) -> (status:
    r_efi::base::Status)
    ensures
        status_value(status) == v,
;

/// The bit that marks a status code as an error: the highest bit of a `usize`.
pub open spec fn error_bit() -> int {
    usize::MAX / 2 + 1
}

/// The integer of the status code of a UEFI error.
pub open spec fn error_status_value(error: EfiError) -> int {
    error_bit() + error.number()
}

/// The integer of the status code that the protocol entry point returns for the result of
/// a measurement: zero for success, the code for a full buffer, the code that a lower
/// layer gave, and "aborted" for every other error.
pub open spec fn result_status_value(result: Result<(), Error>) -> int {
    match result {
        Ok(()) => 0,
        Err(Error::OutOfResources) => error_status_value(EfiError::OutOfResources),
        Err(Error::Efi(code)) => error_status_value(code),
        Err(_) => error_status_value(EfiError::Aborted),
    }
}

/// A line for the diagnostic log.
#[derive(Debug)]
pub enum Diagnostic {
    /// The buffer is full.
    BufferFull,
    /// A lower layer gave an error code.
    StatusCode(EfiError),
    /// The measurement failed with another error.
    Failure(Error),
    /// The identifier of a measurement does not fit into 16 bits.
    InvalidIdentifier(u32),
}

impl Diagnostic {
    /// The text of the line.
    pub open spec fn message(&self) -> Seq<char> {
        match *self {
            Diagnostic::BufferFull => "Performance: FBPT is full, can't add more performance records !"@,
            Diagnostic::StatusCode(code) =>
                "Performance: Something went wrong in create_performance_measurement. status_code: "@
                + code.name(),
            Diagnostic::Failure(error) =>
                "Performance: Something went wrong in create_performance_measurement. Error: "@
                + error.message(),
            Diagnostic::InvalidIdentifier(identifier) =>
                "Performance: Invalid identifier passed to create_performance_measurement_efiapi: "@
                + decimal(identifier as nat),
        }
    }

    /// Whether the line reports a failure; the line on the full buffer is a mere notice.
    pub open spec fn is_failure(&self) -> bool {
        !(self is BufferFull)
    }

    /// Returns the text of the line.
    pub fn to_string(&self) -> (text: String)
        ensures
            text@ == self.message(),
    {
        match self {
            Diagnostic::BufferFull => String::from_str(
                "Performance: FBPT is full, can't add more performance records !",
            ),
            Diagnostic::StatusCode(code) => {
                let mut text = String::from_str(
                    "Performance: Something went wrong in create_performance_measurement. status_code: ",
                );
                text.append(code.as_str());
                text
            },
            Diagnostic::Failure(error) => {
                let mut text = String::from_str(
                    "Performance: Something went wrong in create_performance_measurement. Error: ",
                );
                let message = error.to_string();
                text.append(message.as_str());
                text
            },
            Diagnostic::InvalidIdentifier(identifier) => {
                let mut text = String::from_str(
                    "Performance: Invalid identifier passed to create_performance_measurement_efiapi: ",
                );
                crate::error::append_decimal(&mut text, *identifier as u64);
                text
            },
        }
    }

    /// Tells whether the line reports a failure.
    pub fn reports_failure(&self) -> (failure: bool)
        ensures
            failure == self.is_failure(),
    {
        match self {
            Diagnostic::BufferFull => false,
            _ => true,
        }
    }
}

/// The line that the protocol entry point logs for the result of a measurement.
/// `reported` tells whether a full buffer has been reported before: it is reported once.
pub open spec fn diagnostic_of(result: Result<(), Error>, reported: bool) -> Option<Diagnostic> {
    match result {
        Ok(()) => None,
        Err(Error::OutOfResources) => if reported {
            None
        } else {
            Some(Diagnostic::BufferFull)
        },
        Err(Error::Efi(code)) => Some(Diagnostic::StatusCode(code)),
        Err(error) => Some(Diagnostic::Failure(error)),
    }
}

/// Whether the result of a measurement says that the buffer is full.
pub open spec fn finds_buffer_full(result: Result<(), Error>) -> bool {
    result matches Err(Error::OutOfResources)
}

/// Whether a full buffer has been reported once the result `result` has been seen.
pub open spec fn reported_after(result: Result<(), Error>, reported: bool) -> bool {
    reported || finds_buffer_full(result)
}

/// The number of lines on a full buffer that are logged for the results `results`, one
/// after the other.
pub open spec fn buffer_full_lines(results: Seq<Result<(), Error>>, reported: bool) -> nat
    decreases results.len(),
{
    if results.len() == 0 {
        0
    } else {
        let line: nat = if diagnostic_of(results[0], reported) matches Some(Diagnostic::BufferFull) {
            1
        } else {
            0
        };
        line + buffer_full_lines(results.drop_first(), reported_after(results[0], reported))
    }
}

/// However many measurements follow and however they end: a full buffer is reported in
/// exactly one line if a measurement finds the buffer full and none was reported before,
/// and in no line otherwise.
pub proof fn lemma_buffer_full_is_reported_once(results: Seq<Result<(), Error>>, reported: bool)
    ensures
        buffer_full_lines(results, reported) == (if !reported && exists|i: int|
            0 <= i < results.len() && finds_buffer_full(#[trigger] results[i]) {
            1nat
        } else {
            0nat
        }),
    decreases results.len(),
{
    if results.len() > 0 {
        let rest = results.drop_first();
        lemma_buffer_full_is_reported_once(rest, reported_after(results[0], reported));
        if !reported {
            if finds_buffer_full(results[0]) {
            } else {
                if exists|i: int| 0 <= i < rest.len() && finds_buffer_full(#[trigger] rest[i]) {
                    let i = choose|i: int| 0 <= i < rest.len() && finds_buffer_full(#[trigger] rest[i]);
                    assert(finds_buffer_full(results[i + 1]));
                }
                if exists|i: int| 0 <= i < results.len() && finds_buffer_full(#[trigger] results[i]) {
                    let i = choose|i: int|
                        0 <= i < results.len() && finds_buffer_full(#[trigger] results[i]);
                    assert(finds_buffer_full(rest[i - 1]));
                }
            }
        }
    }
}

/// Returns the status code of a UEFI error.
pub fn error_status(error: EfiError) -> (status: efi::Status)
    ensures
        status_value(status) == error_status_value(error),
{
    efi::Status::from_usize((usize::MAX / 2 + 1) + error.code())
}

/// Returns the status code that the protocol entry point returns for the result of a
/// measurement, and the line that it logs. `reported` tells whether a full buffer has been
/// reported before.
pub fn measurement_status(result: Result<(), Error>, reported: bool) -> (outcome: (
    efi::Status,
    Option<Diagnostic>,
))
    ensures
        status_value(outcome.0) == result_status_value(result),
        outcome.1 == diagnostic_of(result, reported),
{
    match result {
        Ok(()) => (efi::Status::from_usize(0), None),
        Err(Error::OutOfResources) => {
            let line = if reported {
                None
            } else {
                Some(Diagnostic::BufferFull)
            };
            (error_status(EfiError::OutOfResources), line)
        },
        Err(Error::Efi(code)) => (error_status(code), Some(Diagnostic::StatusCode(code))),
        Err(error) => (error_status(EfiError::Aborted), Some(Diagnostic::Failure(error))),
    }
}

} // verus!
