//! The decisions of the protocol entry point.
//!
//! The entry point gets its caller as a bare address. It first settles the identifier of
//! the measurement, which tells what the address is to be read as. Once the caller has
//! been read, the measurement is handed to the gateway and its result is reported.

use crate::error::EfiError;
use crate::gateway::{Gateway, GatewayState};
use crate::known::PerfAttribute;
use crate::measurement::{copied, record_of, CallerIdentifier};
use crate::resolve::{resolve_perf_id, resolved_id, text_of};
use crate::status::{
    diagnostic_of, error_status, error_status_value, result_status_value, status_value, Diagnostic,
};
use r_efi::efi;
use vstd::prelude::*;

verus! {

/// What the entry point does once it has looked at the identifier of a measurement.
#[derive(Debug)]
pub enum Identified {
    /// The measurement is refused with this error, and this line is logged.
    Refused(EfiError, Option<Diagnostic>),
    /// The measurement has the final identifier `perf_id`. Its caller is to be read as a
    /// GUID where `is_guid` holds, and as a handle where it does not.
    Accepted {
        /// The final identifier.
        perf_id: u16,
        /// Whether the caller is named by a GUID.
        is_guid: bool,
    },
}

/// What the entry point makes of the identifier of a measurement. An identifier beyond 16
/// bits is refused as an invalid parameter, with a line for the log, before anything else
/// is looked at. An identifier that does not resolve is refused with the error of the
/// resolution.
pub open spec fn identified(
    caller_address: usize,
    string: Option<Seq<char>>,
    identifier: u32,
    attribute: PerfAttribute,
) -> Identified {
    if identifier > u16::MAX {
        Identified::Refused(
            EfiError::InvalidParameter,
            Some(Diagnostic::InvalidIdentifier(identifier)),
        )
    } else {
        match resolved_id(caller_address != 0, string, identifier as u16, attribute) {
            Err(error) => Identified::Refused(error, None),
            Ok(perf_id) => Identified::Accepted {
                perf_id,
                is_guid: CallerIdentifier::takes_guid(perf_id),
            },
        }
    }
}

/// What the entry point returns for a measurement with a final identifier and a caller
/// read from a bare address: the integer of the status code and the line for the log, and
/// what the gateway holds afterwards. Without a caller the measurement is refused as an
/// invalid parameter, nothing is logged and the gateway stays as it was. With a caller the
/// measurement is handed to the gateway and the result is reported.
pub open spec fn finished(
    state: GatewayState,
    caller: Option<CallerIdentifier>,
    guid: Option<efi::Guid>,
    string: Option<&str>,
    ticker: u64,
    address: usize,
    perf_id: u16,
) -> (int, Option<Diagnostic>, GatewayState) {
    match caller {
        None => (error_status_value(EfiError::InvalidParameter), None, state),
        Some(caller_identifier) => {
            let (result, after) = state.after(
                record_of(caller_identifier, guid, string, ticker, address, perf_id),
            );
            (
                result_status_value(result),
                diagnostic_of(result, state.buffer_full_reported),
                after.after_report(result),
            )
        },
    }
}

/// Looks at the identifier of a measurement that comes through the protocol.
/// `caller_address` is the address that names the caller, zero where there is none; of
/// `identifier` 16 bits have a meaning.
pub fn begin_measurement(
    caller_address: usize,
    string: Option<&str>,
    identifier: u32,
    attribute: PerfAttribute,
) -> (outcome: Identified)
    ensures
        outcome == identified(caller_address, text_of(string), identifier, attribute),
        identifier > 0xFFFF ==> outcome == Identified::Refused(
            EfiError::InvalidParameter,
            Some(Diagnostic::InvalidIdentifier(identifier)),
        ),
{
    if identifier > 0xFFFF {
        return Identified::Refused(
            EfiError::InvalidParameter,
            Some(Diagnostic::InvalidIdentifier(identifier)),
        );
    }
    match resolve_perf_id(caller_address != 0, string, identifier as u16, attribute) {
        Err(error) => Identified::Refused(error, None),
        Ok(perf_id) => Identified::Accepted {
            perf_id,
            is_guid: CallerIdentifier::perf_id_is_guid(perf_id),
        },
    }
}

/// Hands a measurement with the final identifier `perf_id` to the gateway and reports the
/// result: returns the status code for the caller of the protocol and the line for the
/// diagnostic log, if there is one. `caller` is the caller as it was read from its address.
pub fn finish_measurement(
    gateway: &mut Gateway,
    caller: Option<CallerIdentifier>,
    guid: Option<&efi::Guid>,
    string: Option<&str>,
    ticker: u64,
    address: usize,
    perf_id: u16,
) -> (outcome: (efi::Status, Option<Diagnostic>))
    requires
        old(gateway).wf(),
    ensures
        final(gateway).wf(),
        (status_value(outcome.0) as int, outcome.1, final(gateway)@) == finished(
            old(gateway)@,
            caller,
            copied(guid),
            string,
            ticker,
            address,
            perf_id,
        ),
{
    match caller {
        None => (error_status(EfiError::InvalidParameter), None),
        Some(caller_identifier) => {
            let result = gateway.record_measurement(
                caller_identifier,
                guid,
                string,
                ticker,
                address,
                perf_id,
            );
            gateway.report(result)
        },
    }
}

} // verus!
