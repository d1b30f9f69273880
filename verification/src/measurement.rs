//! The caller of a measurement, and the record that is made of a measurement.

use crate::error::{EfiError, Error};
use crate::known::{is_known_id, KnownPerfId, PerfAttribute};
use crate::record::{
    DualGuidStringEventRecord, DynamicStringEventRecord, GuidEventRecord, GuidQwordEventRecord,
    GuidQwordStringEventRecord, PerformanceRecord,
};
use crate::resolve::{resolve_perf_id, resolved_id, text_of};
use r_efi::efi;
use vstd::prelude::*;

verus! {

/// The identifiers below this number are reserved for the measurement points of the core.
pub const RESERVED_ID_LIMIT: u16 = 0x10;

/// What the gateway reads of a firmware handle: the address that stands for the handle,
/// and the GUID of the module that the handle refers to, where there is one.
#[derive(Debug, Clone, Copy)]
pub struct ModuleHandle {
    /// The address that stands for the handle; zero is no handle.
    pub address: usize,
    /// The GUID of the module that the handle refers to.
    pub module_guid: Option<efi::Guid>,
}

/// The entity that a measurement is made for.
#[derive(Debug, Clone, Copy)]
pub enum CallerIdentifier {
    /// The GUID of the caller.
    Guid(efi::Guid),
    /// The handle of a module or of a controller.
    Handle(ModuleHandle),
}

impl CallerIdentifier {
    /// Whether the caller of a measurement with the final identifier `perf_id` is named
    /// by a GUID where nothing else tells: it is for the single event and for the
    /// well-known identifiers above the reserved range, and it is named by a handle for
    /// every other identifier.
    pub open spec fn takes_guid(perf_id: u16) -> bool {
        is_known_id(perf_id) && (perf_id == KnownPerfId::PerfEvent.value() || perf_id
            >= RESERVED_ID_LIMIT)
    }

    /// Whether the caller names something: a GUID always does, a handle if it is not null.
    pub open spec fn present(self) -> bool {
        match self {
            CallerIdentifier::Guid(_) => true,
            CallerIdentifier::Handle(handle) => handle.address != 0,
        }
    }

    /// The GUID that a record with the final identifier `perf_id` carries for this
    /// caller, if the caller is accepted for the identifier. In the reserved range the
    /// single event names its caller by a GUID and every other identifier names it by a
    /// handle; above the reserved range both are accepted. A GUID is carried as it is. A
    /// handle must not be null and must refer to a module, whose GUID is carried.
    pub open spec fn record_guid(self, perf_id: u16) -> Option<efi::Guid> {
        match self {
            CallerIdentifier::Guid(guid) => if perf_id == KnownPerfId::PerfEvent.value() || perf_id
                >= RESERVED_ID_LIMIT {
                Some(guid)
            } else {
                None
            },
            CallerIdentifier::Handle(handle) => if perf_id != KnownPerfId::PerfEvent.value()
                && handle.address != 0 {
                handle.module_guid
            } else {
                None
            },
        }
    }

    /// What a caller that comes as a bare address is taken for. `guid` is what was found
    /// for the address: the GUID that is stored there where `is_guid` holds, and the GUID
    /// of the module that the handle refers to where it does not. A null address is no
    /// caller, and an address that is to hold a GUID and holds none is no caller either.
    pub open spec fn of_address(address: usize, is_guid: bool, guid: Option<efi::Guid>) -> Option<
        CallerIdentifier,
    > {
        if address == 0 {
            None
        } else if is_guid {
            match guid {
                Some(guid) => Some(CallerIdentifier::Guid(guid)),
                None => None,
            }
        } else {
            Some(CallerIdentifier::Handle(ModuleHandle { address, module_guid: guid }))
        }
    }

    /// Tells whether the caller of a measurement with the final identifier `perf_id` is
    /// named by a GUID; it is named by a handle otherwise.
    pub fn perf_id_is_guid(perf_id: u16) -> (is_guid: bool)
        ensures
            is_guid == Self::takes_guid(perf_id),
    {
        match KnownPerfId::try_from(perf_id) {
            Ok(known) => match known {
                KnownPerfId::PerfEvent
                | KnownPerfId::PerfEventSignalStart
                | KnownPerfId::PerfEventSignalEnd
                | KnownPerfId::PerfCallbackStart
                | KnownPerfId::PerfCallbackEnd
                | KnownPerfId::PerfFunctionStart
                | KnownPerfId::PerfFunctionEnd
                | KnownPerfId::PerfInModuleStart
                | KnownPerfId::PerfInModuleEnd
                | KnownPerfId::PerfCrossModuleStart
                | KnownPerfId::PerfCrossModuleEnd => true,
                _ => false,
            },
            Err(_) => false,
        }
    }

    /// Makes a caller of a bare address. `guid` is what was found for the address: the
    /// GUID that is stored there where `is_guid` holds, and the GUID of the module that
    /// the handle refers to where it does not.
    pub fn from_address(address: usize, is_guid: bool, guid: Option<efi::Guid>) -> (caller: Option<
        CallerIdentifier,
    >)
        ensures
            caller == Self::of_address(address, is_guid, guid),
    {
        if address == 0 {
            None
        } else if is_guid {
            match guid {
                Some(guid) => Some(CallerIdentifier::Guid(guid)),
                None => None,
            }
        } else {
            Some(CallerIdentifier::Handle(ModuleHandle { address, module_guid: guid }))
        }
    }

    /// Tells whether the caller names something.
    pub fn is_present(&self) -> (present: bool)
        ensures
            present == self.present(),
    {
        match self {
            CallerIdentifier::Guid(_) => true,
            CallerIdentifier::Handle(handle) => handle.address != 0,
        }
    }

    /// Returns the GUID that a record with the final identifier `perf_id` carries for
    /// this caller, if the caller is accepted for the identifier.
    pub fn guid_for(&self, perf_id: u16) -> (guid: Option<efi::Guid>)
        ensures
            guid == self.record_guid(perf_id),
    {
        let single_event = KnownPerfId::PerfEvent.as_u16();
        match self {
            CallerIdentifier::Guid(guid) => if perf_id == single_event || perf_id
                >= RESERVED_ID_LIMIT {
                Some(*guid)
            } else {
                None
            },
            CallerIdentifier::Handle(handle) => if perf_id != single_event && handle.address != 0 {
                handle.module_guid
            } else {
                None
            },
        }
    }
}

/// One of the five records that a measurement can give.
#[derive(Debug)]
pub enum MeasurementRecord<'a> {
    /// A GUID alone.
    Guid(GuidEventRecord),
    /// A GUID and a string.
    DynamicString(DynamicStringEventRecord<'a>),
    /// Two GUIDs and a string.
    DualGuidString(DualGuidStringEventRecord<'a>),
    /// A GUID and an auxiliary word.
    GuidQword(GuidQwordEventRecord),
    /// A GUID, an auxiliary word and a string.
    GuidQwordString(GuidQwordStringEventRecord<'a>),
}

impl PerformanceRecord for MeasurementRecord<'_> {
    open spec fn type_id(&self) -> u16 {
        match self {
            MeasurementRecord::Guid(record) => record.type_id(),
            MeasurementRecord::DynamicString(record) => record.type_id(),
            MeasurementRecord::DualGuidString(record) => record.type_id(),
            MeasurementRecord::GuidQword(record) => record.type_id(),
            MeasurementRecord::GuidQwordString(record) => record.type_id(),
        }
    }

    open spec fn revision_number(&self) -> u8 {
        match self {
            MeasurementRecord::Guid(record) => record.revision_number(),
            MeasurementRecord::DynamicString(record) => record.revision_number(),
            MeasurementRecord::DualGuidString(record) => record.revision_number(),
            MeasurementRecord::GuidQword(record) => record.revision_number(),
            MeasurementRecord::GuidQwordString(record) => record.revision_number(),
        }
    }

    open spec fn data(&self) -> Seq<u8> {
        match self {
            MeasurementRecord::Guid(record) => record.data(),
            MeasurementRecord::DynamicString(record) => record.data(),
            MeasurementRecord::DualGuidString(record) => record.data(),
            MeasurementRecord::GuidQword(record) => record.data(),
            MeasurementRecord::GuidQwordString(record) => record.data(),
        }
    }

    fn record_type(&self) -> (record_type: u16) {
        match self {
            MeasurementRecord::Guid(record) => record.record_type(),
            MeasurementRecord::DynamicString(record) => record.record_type(),
            MeasurementRecord::DualGuidString(record) => record.record_type(),
            MeasurementRecord::GuidQword(record) => record.record_type(),
            MeasurementRecord::GuidQwordString(record) => record.record_type(),
        }
    }

    fn revision(&self) -> (revision: u8) {
        match self {
            MeasurementRecord::Guid(record) => record.revision(),
            MeasurementRecord::DynamicString(record) => record.revision(),
            MeasurementRecord::DualGuidString(record) => record.revision(),
            MeasurementRecord::GuidQword(record) => record.revision(),
            MeasurementRecord::GuidQwordString(record) => record.revision(),
        }
    }

    fn data_size(&self) -> (size: usize) {
        match self {
            MeasurementRecord::Guid(record) => record.data_size(),
            MeasurementRecord::DynamicString(record) => record.data_size(),
            MeasurementRecord::DualGuidString(record) => record.data_size(),
            MeasurementRecord::GuidQword(record) => record.data_size(),
            MeasurementRecord::GuidQwordString(record) => record.data_size(),
        }
    }

    fn write_data_into(&self, buff: &mut [u8], offset: &mut usize) -> (result: Result<(), Error>) {
        match self {
            MeasurementRecord::Guid(record) => record.write_data_into(buff, offset),
            MeasurementRecord::DynamicString(record) => record.write_data_into(buff, offset),
            MeasurementRecord::DualGuidString(record) => record.write_data_into(buff, offset),
            MeasurementRecord::GuidQword(record) => record.write_data_into(buff, offset),
            MeasurementRecord::GuidQwordString(record) => record.write_data_into(buff, offset),
        }
    }
}

/// The value of an optional reference.
pub open spec fn copied(guid: Option<&efi::Guid>) -> Option<efi::Guid> {
    match guid {
        Some(guid) => Some(*guid),
        None => None,
    }
}

/// The record that is made of a measurement with the final identifier `perf_id`, or the
/// error with which the measurement is refused. The caller must be accepted for the
/// identifier. The layout follows from what is given besides the GUID of the caller: a
/// second GUID, a string, an auxiliary word (an address that is not zero). Where no layout
/// holds just what is given, the measurement is refused. The identifier of the clock source
/// is zero.
pub open spec fn record_of<'a>(
    caller_identifier: CallerIdentifier,
    guid: Option<efi::Guid>,
    string: Option<&'a str>,
    ticker: u64,
    address: usize,
    perf_id: u16,
) -> Result<MeasurementRecord<'a>, Error> {
    match caller_identifier.record_guid(perf_id) {
        None => Err(Error::Efi(EfiError::InvalidParameter)),
        Some(caller_guid) => match (guid, string, address != 0) {
            (None, None, false) => Ok(
                MeasurementRecord::Guid(
                    GuidEventRecord { progress_id: perf_id, acpi_id: 0, timestamp: ticker, guid: caller_guid },
                ),
            ),
            (None, Some(string), false) => Ok(
                MeasurementRecord::DynamicString(
                    DynamicStringEventRecord {
                        progress_id: perf_id,
                        acpi_id: 0,
                        timestamp: ticker,
                        guid: caller_guid,
                        string,
                    },
                ),
            ),
            (Some(guid), Some(string), false) => Ok(
                MeasurementRecord::DualGuidString(
                    DualGuidStringEventRecord {
                        progress_id: perf_id,
                        acpi_id: 0,
                        timestamp: ticker,
                        guid_1: caller_guid,
                        guid_2: guid,
                        string,
                    },
                ),
            ),
            (None, None, true) => Ok(
                MeasurementRecord::GuidQword(
                    GuidQwordEventRecord {
                        progress_id: perf_id,
                        acpi_id: 0,
                        timestamp: ticker,
                        guid: caller_guid,
                        qword: address as u64,
                    },
                ),
            ),
            (None, Some(string), true) => Ok(
                MeasurementRecord::GuidQwordString(
                    GuidQwordStringEventRecord {
                        progress_id: perf_id,
                        acpi_id: 0,
                        timestamp: ticker,
                        guid: caller_guid,
                        qword: address as u64,
                        string,
                    },
                ),
            ),
            _ => Err(Error::Efi(EfiError::InvalidParameter)),
        },
    }
}

/// The record that is made of a measurement, or the error with which the measurement is
/// refused: the identifier is resolved, and the record is made with the final identifier.
pub open spec fn measured<'a>(
    caller_identifier: CallerIdentifier,
    guid: Option<efi::Guid>,
    string: Option<&'a str>,
    ticker: u64,
    address: usize,
    identifier: u16,
    attribute: PerfAttribute,
) -> Result<MeasurementRecord<'a>, Error> {
    match resolved_id(caller_identifier.present(), text_of(string), identifier, attribute) {
        Err(error) => Err(Error::Efi(error)),
        Ok(perf_id) => record_of(caller_identifier, guid, string, ticker, address, perf_id),
    }
}

/// Makes the record of a measurement with the final identifier `perf_id`.
pub fn build_record<'a>(
    caller_identifier: CallerIdentifier,
    guid: Option<&efi::Guid>,
    string: Option<&'a str>,
    ticker: u64,
    address: usize,
    perf_id: u16,
) -> (result: Result<MeasurementRecord<'a>, Error>)
    ensures
        result == record_of(caller_identifier, copied(guid), string, ticker, address, perf_id),
{
    let caller_guid = match caller_identifier.guid_for(perf_id) {
        Some(caller_guid) => caller_guid,
        None => { return Err(Error::Efi(EfiError::InvalidParameter)); },
    };
    let acpi_id: u32 = 0;
    let qword = address as u64;
    match (guid, string, address != 0) {
        (None, None, false) => Ok(
            MeasurementRecord::Guid(GuidEventRecord::new(perf_id, acpi_id, ticker, caller_guid)),
        ),
        (None, Some(string), false) => Ok(
            MeasurementRecord::DynamicString(
                DynamicStringEventRecord::new(perf_id, acpi_id, ticker, caller_guid, string),
            ),
        ),
        (Some(guid), Some(string), false) => Ok(
            MeasurementRecord::DualGuidString(
                DualGuidStringEventRecord::new(perf_id, acpi_id, ticker, caller_guid, *guid, string),
            ),
        ),
        (None, None, true) => Ok(
            MeasurementRecord::GuidQword(
                GuidQwordEventRecord::new(perf_id, acpi_id, ticker, caller_guid, qword),
            ),
        ),
        (None, Some(string), true) => Ok(
            MeasurementRecord::GuidQwordString(
                GuidQwordStringEventRecord::new(perf_id, acpi_id, ticker, caller_guid, qword, string),
            ),
        ),
        _ => Err(Error::Efi(EfiError::InvalidParameter)),
    }
}

/// Resolves the identifier of a measurement and makes its record.
pub fn prepare_measurement<'a>(
    caller_identifier: CallerIdentifier,
    guid: Option<&efi::Guid>,
    string: Option<&'a str>,
    ticker: u64,
    address: usize,
    identifier: u16,
    attribute: PerfAttribute,
) -> (result: Result<MeasurementRecord<'a>, Error>)
    ensures
        result == measured(
            caller_identifier,
            copied(guid),
            string,
            ticker,
            address,
            identifier,
            attribute,
        ),
{
    match resolve_perf_id(caller_identifier.is_present(), string, identifier, attribute) {
        Err(error) => Err(Error::from(error)),
        Ok(perf_id) => build_record(caller_identifier, guid, string, ticker, address, perf_id),
    }
}

} // verus!
