//! The gateway that instrumented code hands its measurements to.

use crate::buffer::{append_outcome, concat, RecordBuffer, MIN_BUFFER_SIZE};
use crate::error::Error;
use crate::known::PerfAttribute;
use crate::measurement::{
    build_record, copied, measured, prepare_measurement, record_of, CallerIdentifier,
    MeasurementRecord,
};
use crate::record::{encoded, PerformanceRecord};
use crate::status::{
    diagnostic_of, measurement_status, reported_after, result_status_value, status_value,
    Diagnostic,
};
use r_efi::efi;
use vstd::prelude::*;

verus! {

/// The kinds of measurements. Each kind has a bit in the measurement mask that switches it
/// on.
#[derive(Debug, Clone, Copy, PartialEq, Eq, Structural)]
pub enum Measurement {
    /// The entry point of an image.
    StartImage,
    /// The loading of an image.
    LoadImage,
    /// The support function of a driver binding.
    DriverBindingSupport,
    /// The start function of a driver binding.
    DriverBindingStart,
    /// The stop function of a driver binding.
    DriverBindingStop,
    /// A single event of a module.
    Event,
    /// The signalling of an event.
    EventSignal,
    /// A callback.
    Callback,
    /// A function.
    Function,
    /// A measurement within one module.
    InModule,
    /// A measurement across modules.
    CrossModule,
    /// A start/end pair that a module measures under a token or an identifier of its own.
    StartEnd,
}

impl Measurement {
    /// The bit of the measurement mask that switches the kind on.
    pub open spec fn bit(self) -> u32 {
        match self {
            Measurement::StartImage => 0x01,
            Measurement::LoadImage => 0x02,
            Measurement::DriverBindingSupport => 0x04,
            Measurement::DriverBindingStart => 0x08,
            Measurement::DriverBindingStop => 0x10,
            Measurement::Event => 0x20,
            Measurement::EventSignal => 0x40,
            Measurement::Callback => 0x80,
            Measurement::Function => 0x100,
            Measurement::InModule => 0x200,
            Measurement::CrossModule => 0x400,
            Measurement::StartEnd => 0x800,
        }
    }

    /// Returns the bit of the measurement mask that switches the kind on.
    pub fn as_u32(self) -> (bit: u32)
        ensures
            bit == self.bit(),
    {
        match self {
            Measurement::StartImage => 0x01,
            Measurement::LoadImage => 0x02,
            Measurement::DriverBindingSupport => 0x04,
            Measurement::DriverBindingStart => 0x08,
            Measurement::DriverBindingStop => 0x10,
            Measurement::Event => 0x20,
            Measurement::EventSignal => 0x40,
            Measurement::Callback => 0x80,
            Measurement::Function => 0x100,
            Measurement::InModule => 0x200,
            Measurement::CrossModule => 0x400,
            Measurement::StartEnd => 0x800,
        }
    }
}

/// What a gateway holds.
pub struct GatewayState {
    /// The encoded records, oldest first.
    pub records: Seq<Seq<u8>>,
    /// The number of bytes that the buffer can hold.
    pub capacity: nat,
    /// The mask of the kinds of measurements that are switched on.
    pub mask: u32,
    /// Whether a full buffer has been reported.
    pub buffer_full_reported: bool,
}

impl GatewayState {
    /// Whether measurements of the kind `kind` are switched on.
    pub open spec fn enabled(self, kind: Measurement) -> bool {
        self.mask & kind.bit() != 0
    }

    /// What handing in a measurement returns, and what the gateway holds afterwards. A
    /// measurement that was refused leaves the gateway as it was; the record of one that
    /// was accepted is appended to the buffer, if the buffer takes it.
    pub open spec fn after<'a>(self, prepared: Result<MeasurementRecord<'a>, Error>) -> (
        Result<(), Error>,
        GatewayState,
    ) {
        match prepared {
            Err(error) => (Err(error), self),
            Ok(record) => {
                let (result, records) = append_outcome(
                    self.records,
                    self.capacity,
                    encoded(record.type_id(), record.revision_number(), record.data()),
                );
                (result, GatewayState { records, ..self })
            },
        }
    }

    /// What the gateway holds once the result `result` of a measurement has been
    /// reported.
    pub open spec fn after_report(self, result: Result<(), Error>) -> GatewayState {
        GatewayState {
            buffer_full_reported: reported_after(result, self.buffer_full_reported),
            ..self
        }
    }
}

/// The gateway: a buffer of records, the mask of the measurements that are switched on,
/// and the memory of whether a full buffer has been reported.
pub struct Gateway {
    buffer: RecordBuffer,
    mask: u32,
    buffer_full_reported: bool,
}

impl View for Gateway {
    type V = GatewayState;

    closed spec fn view(&self) -> GatewayState {
        GatewayState {
            records: self.buffer.records(),
            capacity: self.buffer.spec_capacity(),
            mask: self.mask,
            buffer_full_reported: self.buffer_full_reported,
        }
    }
}

impl Gateway {
    /// Whether the gateway is in order.
    pub closed spec fn wf(&self) -> bool {
        self.buffer.wf()
    }

    /// Creates a gateway with an empty buffer in the memory `memory` and with the
    /// measurement mask `mask`. Memory that cannot hold even the smallest record is refused.
    pub fn new(memory: Vec<u8>, mask: u32) -> (result: Result<Self, Error>)
        ensures
            memory@.len() < MIN_BUFFER_SIZE ==> result matches Err(Error::BufferTooSmall),
            memory@.len() >= MIN_BUFFER_SIZE ==> result is Ok && result.unwrap().wf()
                && result.unwrap()@ == (GatewayState {
                records: Seq::empty(),
                capacity: memory@.len(),
                mask,
                buffer_full_reported: false,
            }),
    {
        match RecordBuffer::new(memory) {
            Ok(buffer) => Ok(Gateway { buffer, mask, buffer_full_reported: false }),
            Err(error) => Err(error),
        }
    }

    /// Returns the measurement mask.
    pub fn measurement_mask(&self) -> (mask: u32)
        ensures
            mask == self@.mask,
    {
        self.mask
    }

    /// Sets the measurement mask.
    pub fn set_measurement_mask(&mut self, mask: u32)
        requires
            old(self).wf(),
        ensures
            final(self).wf(),
            final(self)@ == (GatewayState { mask, ..old(self)@ }),
    {
        self.mask = mask;
    }

    /// Tells whether measurements of the kind `kind` are switched on.
    pub fn is_enabled(&self, kind: Measurement) -> (enabled: bool)
        ensures
            enabled == self@.enabled(kind),
    {
        self.mask & kind.as_u32() != 0
    }

    /// Returns the number of records in the buffer.
    pub fn record_count(&self) -> (count: usize)
        requires
            self.wf(),
        ensures
            count == self@.records.len(),
    {
        self.buffer.record_count()
    }

    /// Returns the bytes of the records in the buffer, one record behind the other.
    pub fn as_bytes(&self) -> (bytes: &[u8])
        requires
            self.wf(),
        ensures
            bytes@ == concat(self@.records),
    {
        self.buffer.as_bytes()
    }

    /// Returns the number of bytes that the buffer can hold.
    pub fn capacity(&self) -> (capacity: usize)
        ensures
            capacity == self@.capacity,
    {
        self.buffer.capacity()
    }

    /// Tells whether a full buffer has been reported.
    pub fn buffer_full_reported(&self) -> (reported: bool)
        ensures
            reported == self@.buffer_full_reported,
    {
        self.buffer_full_reported
    }

    /// Takes a measurement: resolves its identifier, makes the record and appends it to
    /// the buffer. `ticker` is the timestamp of the measurement; an `address` that is not
    /// zero is its auxiliary word.
    pub fn create_performance_measurement(
        &mut self,
        caller_identifier: CallerIdentifier,
        guid: Option<&efi::Guid>,
        string: Option<&str>,
        ticker: u64,
        address: usize,
        identifier: u16,
        attribute: PerfAttribute,
    ) -> (result: Result<(), Error>)
        requires
            old(self).wf(),
        ensures
            final(self).wf(),
            (result, final(self)@) == old(self)@.after(
                measured(caller_identifier, copied(guid), string, ticker, address, identifier, attribute),
            ),
    {
        match prepare_measurement(
            caller_identifier,
            guid,
            string,
            ticker,
            address,
            identifier,
            attribute,
        ) {
            Ok(record) => self.buffer.add_record(&record),
            Err(error) => Err(error),
        }
    }

    /// Takes a measurement whose identifier has been resolved: makes the record with the
    /// final identifier `perf_id` and appends it to the buffer.
    pub fn record_measurement(
        &mut self,
        caller_identifier: CallerIdentifier,
        guid: Option<&efi::Guid>,
        string: Option<&str>,
        ticker: u64,
        address: usize,
        perf_id: u16,
    ) -> (result: Result<(), Error>)
        requires
            old(self).wf(),
        ensures
            final(self).wf(),
            (result, final(self)@) == old(self)@.after(
                record_of(caller_identifier, copied(guid), string, ticker, address, perf_id),
            ),
    {
        match build_record(caller_identifier, guid, string, ticker, address, perf_id) {
            Ok(record) => self.buffer.add_record(&record),
            Err(error) => Err(error),
        }
    }

    /// Reports the result of a measurement: returns the status code for the caller of the
    /// protocol and the line for the diagnostic log, if there is one. A full buffer is
    /// reported in one line, the first time it is found.
    pub fn report(&mut self, result: Result<(), Error>) -> (outcome: (efi::Status, Option<Diagnostic>))
        requires
            old(self).wf(),
        ensures
            final(self).wf(),
            status_value(outcome.0) == result_status_value(result),
            outcome.1 == diagnostic_of(result, old(self)@.buffer_full_reported),
            final(self)@ == old(self)@.after_report(result),
    {
        let reported = self.buffer_full_reported;
        if let Err(Error::OutOfResources) = &result {
            self.buffer_full_reported = true;
        }
        measurement_status(result, reported)
    }
}

} // verus!
