//! Fixed call shapes over the gateway for the measurement points of the core and of
//! modules.
//!
//! Every function here looks at the measurement mask before it does anything else, and
//! does nothing where the kind of its measurement is switched off. Where the kind is
//! switched on, it hands one measurement to the gateway. It does not fail: an error of the
//! gateway is handed back as a value for the diagnostic log, and the gateway is left as it
//! was.

use crate::buffer::concat;
use crate::error::Error;
use crate::gateway::{Gateway, GatewayState, Measurement};
use crate::known::{KnownPerfId, PerfAttribute};
use crate::measurement::{copied, measured, CallerIdentifier, ModuleHandle};
use crate::record::{
    common_data, encoded, lemma_common_data_layout, lemma_record_layout, GuidEventRecord,
    PerformanceRecord, COMMON_DATA_SIZE, RECORD_HEADER_SIZE,
};
use r_efi::efi;
use vstd::prelude::*;

verus! {

/// The error of a result, if it is one.
pub open spec fn swallowed(result: Result<(), Error>) -> Option<Error> {
    match result {
        Ok(()) => None,
        Err(error) => Some(error),
    }
}

/// What handing a measurement to a gateway gives: the error for the diagnostic log, if the
/// gateway refused, and what the gateway holds afterwards.
pub open spec fn submitted(
    state: GatewayState,
    caller_identifier: CallerIdentifier,
    guid: Option<efi::Guid>,
    string: Option<&str>,
    timestamp: u64,
    address: usize,
    identifier: u16,
    attribute: PerfAttribute,
) -> (Option<Error>, GatewayState) {
    let (result, after) = state.after(
        measured(caller_identifier, guid, string, timestamp, address, identifier, attribute),
    );
    (swallowed(result), after)
}

/// What a measurement of the kind `kind` gives: nothing, where the kind is switched off,
/// and `outcome` where it is switched on.
pub open spec fn gated(
    state: GatewayState,
    kind: Measurement,
    outcome: (Option<Error>, GatewayState),
) -> (Option<Error>, GatewayState) {
    if state.enabled(kind) {
        outcome
    } else {
        (None, state)
    }
}

/// The first of two optional strings that is there.
pub open spec fn first_of<'a>(token: Option<&'a str>, module: Option<&'a str>) -> Option<&'a str> {
    match token {
        Some(token) => Some(token),
        None => module,
    }
}

/// The low 16 bits of a 32-bit identifier.
pub open spec fn low_word(identifier: u32) -> u16 {
    (identifier & 0xFFFF) as u16
}

/// Hands a single event of the kind `kind` to the gateway, if the kind is switched on.
pub fn log_perf_measurement(
    kind: Measurement,
    caller_identifier: CallerIdentifier,
    guid: Option<&efi::Guid>,
    string: Option<&str>,
    timestamp: u64,
    address: usize,
    identifier: u16,
    gateway: &mut Gateway,
) -> (error: Option<Error>)
    requires
        old(gateway).wf(),
    ensures
        final(gateway).wf(),
        (error, final(gateway)@) == gated(
            old(gateway)@,
            kind,
            submitted(
                old(gateway)@,
                caller_identifier,
                copied(guid),
                string,
                timestamp,
                address,
                identifier,
                PerfAttribute::PerfEntry,
            ),
        ),
{
    if !gateway.is_enabled(kind) {
        return None;
    }
    match gateway.create_performance_measurement(
        caller_identifier,
        guid,
        string,
        timestamp,
        address,
        identifier,
        PerfAttribute::PerfEntry,
    ) {
        Ok(()) => None,
        Err(error) => Some(error),
    }
}

/// Hands the start of a start/end pair to the gateway, if start/end pairs are switched
/// on. The string of the measurement is the token, or the module where there is no token.
/// Of the identifier the low 16 bits count.
pub fn start_perf_measurement(
    handle: ModuleHandle,
    token: Option<&str>,
    module: Option<&str>,
    timestamp: u64,
    identifier: u32,
    gateway: &mut Gateway,
) -> (error: Option<Error>)
    requires
        old(gateway).wf(),
    ensures
        final(gateway).wf(),
        (error, final(gateway)@) == gated(
            old(gateway)@,
            Measurement::StartEnd,
            submitted(
                old(gateway)@,
                CallerIdentifier::Handle(handle),
                None,
                first_of(token, module),
                timestamp,
                0,
                low_word(identifier),
                PerfAttribute::PerfStartEntry,
            ),
        ),
{
    if !gateway.is_enabled(Measurement::StartEnd) {
        return None;
    }
    let string = match token {
        Some(token) => Some(token),
        None => module,
    };
    assert(identifier & 0xFFFF <= 0xFFFF) by (bit_vector);
    match gateway.create_performance_measurement(
        CallerIdentifier::Handle(handle),
        None,
        string,
        timestamp,
        0,
        (identifier & 0xFFFF) as u16,
        PerfAttribute::PerfStartEntry,
    ) {
        Ok(()) => None,
        Err(error) => Some(error),
    }
}

/// Hands the end of a start/end pair to the gateway, if start/end pairs are switched
/// on. The string of the measurement is the token, or the module where there is no token.
/// Of the identifier the low 16 bits count.
pub fn end_perf_measurement(
    handle: ModuleHandle,
    token: Option<&str>,
    module: Option<&str>,
    timestamp: u64,
    identifier: u32,
    gateway: &mut Gateway,
) -> (error: Option<Error>)
    requires
        old(gateway).wf(),
    ensures
        final(gateway).wf(),
        (error, final(gateway)@) == gated(
            old(gateway)@,
            Measurement::StartEnd,
            submitted(
                old(gateway)@,
                CallerIdentifier::Handle(handle),
                None,
                first_of(token, module),
                timestamp,
                0,
                low_word(identifier),
                PerfAttribute::PerfEndEntry,
            ),
        ),
{
    if !gateway.is_enabled(Measurement::StartEnd) {
        return None;
    }
    let string = match token {
        Some(token) => Some(token),
        None => module,
    };
    assert(identifier & 0xFFFF <= 0xFFFF) by (bit_vector);
    match gateway.create_performance_measurement(
        CallerIdentifier::Handle(handle),
        None,
        string,
        timestamp,
        0,
        (identifier & 0xFFFF) as u16,
        PerfAttribute::PerfEndEntry,
    ) {
        Ok(()) => None,
        Err(error) => Some(error),
    }
}

/// Begins performance measurement of start image in core.
pub fn perf_image_start_begin(
    module_handle: ModuleHandle,
    timestamp: u64,
    gateway: &mut Gateway,
) -> (error: Option<Error>)
    requires
        old(gateway).wf(),
    ensures
        final(gateway).wf(),
        (error, final(gateway)@) == gated(
            old(gateway)@,
            Measurement::StartImage,
            submitted(
                old(gateway)@,
                CallerIdentifier::Handle(module_handle),
                None,
                None,
                timestamp,
                0,
                KnownPerfId::ModuleStart.value(),
                PerfAttribute::PerfEntry,
            ),
        ),
{
    log_perf_measurement(
        Measurement::StartImage,
        CallerIdentifier::Handle(module_handle),
        None,
        None,
        timestamp,
        0,
        KnownPerfId::ModuleStart.as_u16(),
        gateway,
    )
}

/// Ends performance measurement of start image in core.
pub fn perf_image_start_end(
    image_handle: ModuleHandle,
    timestamp: u64,
    gateway: &mut Gateway,
) -> (error: Option<Error>)
    requires
        old(gateway).wf(),
    ensures
        final(gateway).wf(),
        (error, final(gateway)@) == gated(
            old(gateway)@,
            Measurement::StartImage,
            submitted(
                old(gateway)@,
                CallerIdentifier::Handle(image_handle),
                None,
                None,
                timestamp,
                0,
                KnownPerfId::ModuleEnd.value(),
                PerfAttribute::PerfEntry,
            ),
        ),
{
    log_perf_measurement(
        Measurement::StartImage,
        CallerIdentifier::Handle(image_handle),
        None,
        None,
        timestamp,
        0,
        KnownPerfId::ModuleEnd.as_u16(),
        gateway,
    )
}

/// Begins performance measurement of load image in core.
pub fn perf_load_image_begin(
    module_handle: ModuleHandle,
    timestamp: u64,
    gateway: &mut Gateway,
) -> (error: Option<Error>)
    requires
        old(gateway).wf(),
    ensures
        final(gateway).wf(),
        (error, final(gateway)@) == gated(
            old(gateway)@,
            Measurement::LoadImage,
            submitted(
                old(gateway)@,
                CallerIdentifier::Handle(module_handle),
                None,
                None,
                timestamp,
                0,
                KnownPerfId::ModuleLoadImageStart.value(),
                PerfAttribute::PerfEntry,
            ),
        ),
{
    log_perf_measurement(
        Measurement::LoadImage,
        CallerIdentifier::Handle(module_handle),
        None,
        None,
        timestamp,
        0,
        KnownPerfId::ModuleLoadImageStart.as_u16(),
        gateway,
    )
}

/// Ends performance measurement of load image in core.
pub fn perf_load_image_end(
    module_handle: ModuleHandle,
    timestamp: u64,
    gateway: &mut Gateway,
) -> (error: Option<Error>)
    requires
        old(gateway).wf(),
    ensures
        final(gateway).wf(),
        (error, final(gateway)@) == gated(
            old(gateway)@,
            Measurement::LoadImage,
            submitted(
                old(gateway)@,
                CallerIdentifier::Handle(module_handle),
                None,
                None,
                timestamp,
                0,
                KnownPerfId::ModuleLoadImageEnd.value(),
                PerfAttribute::PerfEntry,
            ),
        ),
{
    log_perf_measurement(
        Measurement::LoadImage,
        CallerIdentifier::Handle(module_handle),
        None,
        None,
        timestamp,
        0,
        KnownPerfId::ModuleLoadImageEnd.as_u16(),
        gateway,
    )
}

/// Begins performance measurement of driver binding support in the core.
/// The address of the controller is the auxiliary word of the record.
pub fn perf_driver_binding_support_begin(
    driver_binding_handle: ModuleHandle,
    controller_handle: usize,
    timestamp: u64,
    gateway: &mut Gateway,
) -> (error: Option<Error>)
    requires
        old(gateway).wf(),
    ensures
        final(gateway).wf(),
        (error, final(gateway)@) == gated(
            old(gateway)@,
            Measurement::DriverBindingSupport,
            submitted(
                old(gateway)@,
                CallerIdentifier::Handle(driver_binding_handle),
                None,
                None,
                timestamp,
                controller_handle,
                KnownPerfId::ModuleDbSupportStart.value(),
                PerfAttribute::PerfEntry,
            ),
        ),
{
    log_perf_measurement(
        Measurement::DriverBindingSupport,
        CallerIdentifier::Handle(driver_binding_handle),
        None,
        None,
        timestamp,
        controller_handle,
        KnownPerfId::ModuleDbSupportStart.as_u16(),
        gateway,
    )
}

/// Ends performance measurement of driver binding support in the core.
/// The address of the controller is the auxiliary word of the record.
pub fn perf_driver_binding_support_end(
    driver_binding_handle: ModuleHandle,
    controller_handle: usize,
    timestamp: u64,
    gateway: &mut Gateway,
) -> (error: Option<Error>)
    requires
        old(gateway).wf(),
    ensures
        final(gateway).wf(),
        (error, final(gateway)@) == gated(
            old(gateway)@,
            Measurement::DriverBindingSupport,
            submitted(
                old(gateway)@,
                CallerIdentifier::Handle(driver_binding_handle),
                None,
                None,
                timestamp,
                controller_handle,
                KnownPerfId::ModuleDbSupportEnd.value(),
                PerfAttribute::PerfEntry,
            ),
        ),
{
    log_perf_measurement(
        Measurement::DriverBindingSupport,
        CallerIdentifier::Handle(driver_binding_handle),
        None,
        None,
        timestamp,
        controller_handle,
        KnownPerfId::ModuleDbSupportEnd.as_u16(),
        gateway,
    )
}

/// Begins performance measurement of driver binding start in the core.
/// The address of the controller is the auxiliary word of the record.
pub fn perf_driver_binding_start_begin(
    driver_binding_handle: ModuleHandle,
    controller_handle: usize,
    timestamp: u64,
    gateway: &mut Gateway,
) -> (error: Option<Error>)
    requires
        old(gateway).wf(),
    ensures
        final(gateway).wf(),
        (error, final(gateway)@) == gated(
            old(gateway)@,
            Measurement::DriverBindingStart,
            submitted(
                old(gateway)@,
                CallerIdentifier::Handle(driver_binding_handle),
                None,
                None,
                timestamp,
                controller_handle,
                KnownPerfId::ModuleDbStart.value(),
                PerfAttribute::PerfEntry,
            ),
        ),
{
    log_perf_measurement(
        Measurement::DriverBindingStart,
        CallerIdentifier::Handle(driver_binding_handle),
        None,
        None,
        timestamp,
        controller_handle,
        KnownPerfId::ModuleDbStart.as_u16(),
        gateway,
    )
}

/// Ends performance measurement of driver binding start in the core.
/// The address of the controller is the auxiliary word of the record.
pub fn perf_driver_binding_start_end(
    driver_binding_handle: ModuleHandle,
    controller_handle: usize,
    timestamp: u64,
    gateway: &mut Gateway,
) -> (error: Option<Error>)
    requires
        old(gateway).wf(),
    ensures
        final(gateway).wf(),
        (error, final(gateway)@) == gated(
            old(gateway)@,
            Measurement::DriverBindingStart,
            submitted(
                old(gateway)@,
                CallerIdentifier::Handle(driver_binding_handle),
                None,
                None,
                timestamp,
                controller_handle,
                KnownPerfId::ModuleDbEnd.value(),
                PerfAttribute::PerfEntry,
            ),
        ),
{
    log_perf_measurement(
        Measurement::DriverBindingStart,
        CallerIdentifier::Handle(driver_binding_handle),
        None,
        None,
        timestamp,
        controller_handle,
        KnownPerfId::ModuleDbEnd.as_u16(),
        gateway,
    )
}

/// Begins performance measurement of driver binding stop in the core.
/// The address of the controller is the auxiliary word of the record.
pub fn perf_driver_binding_stop_begin(
    module_handle: ModuleHandle,
    controller_handle: usize,
    timestamp: u64,
    gateway: &mut Gateway,
) -> (error: Option<Error>)
    requires
        old(gateway).wf(),
    ensures
        final(gateway).wf(),
        (error, final(gateway)@) == gated(
            old(gateway)@,
            Measurement::DriverBindingStop,
            submitted(
                old(gateway)@,
                CallerIdentifier::Handle(module_handle),
                None,
                None,
                timestamp,
                controller_handle,
                KnownPerfId::ModuleDbStopStart.value(),
                PerfAttribute::PerfEntry,
            ),
        ),
{
    log_perf_measurement(
        Measurement::DriverBindingStop,
        CallerIdentifier::Handle(module_handle),
        None,
        None,
        timestamp,
        controller_handle,
        KnownPerfId::ModuleDbStopStart.as_u16(),
        gateway,
    )
}

/// Ends performance measurement of driver binding stop in the core.
/// The address of the controller is the auxiliary word of the record.
pub fn perf_driver_binding_stop_end(
    module_handle: ModuleHandle,
    controller_handle: usize,
    timestamp: u64,
    gateway: &mut Gateway,
) -> (error: Option<Error>)
    requires
        old(gateway).wf(),
    ensures
        final(gateway).wf(),
        (error, final(gateway)@) == gated(
            old(gateway)@,
            Measurement::DriverBindingStop,
            submitted(
                old(gateway)@,
                CallerIdentifier::Handle(module_handle),
                None,
                None,
                timestamp,
                controller_handle,
                KnownPerfId::ModuleDbStopEnd.value(),
                PerfAttribute::PerfEntry,
            ),
        ),
{
    log_perf_measurement(
        Measurement::DriverBindingStop,
        CallerIdentifier::Handle(module_handle),
        None,
        None,
        timestamp,
        controller_handle,
        KnownPerfId::ModuleDbStopEnd.as_u16(),
        gateway,
    )
}

/// Measures the time from power-on to the call of this function.
pub fn perf_event(
    event_string: &str,
    caller_id: &efi::Guid,
    timestamp: u64,
    gateway: &mut Gateway,
) -> (error: Option<Error>)
    requires
        old(gateway).wf(),
    ensures
        final(gateway).wf(),
        (error, final(gateway)@) == gated(
            old(gateway)@,
            Measurement::Event,
            submitted(
                old(gateway)@,
                CallerIdentifier::Guid(*caller_id),
                None,
                Some(event_string),
                timestamp,
                0,
                KnownPerfId::PerfEvent.value(),
                PerfAttribute::PerfEntry,
            ),
        ),
{
    log_perf_measurement(
        Measurement::Event,
        CallerIdentifier::Guid(*caller_id),
        None,
        Some(event_string),
        timestamp,
        0,
        KnownPerfId::PerfEvent.as_u16(),
        gateway,
    )
}

/// Begins performance measurement of event signal behavior in any module.
pub fn perf_event_signal_begin(
    event_guid: &efi::Guid,
    fun_name: &str,
    caller_id: &efi::Guid,
    timestamp: u64,
    gateway: &mut Gateway,
) -> (error: Option<Error>)
    requires
        old(gateway).wf(),
    ensures
        final(gateway).wf(),
        (error, final(gateway)@) == gated(
            old(gateway)@,
            Measurement::EventSignal,
            submitted(
                old(gateway)@,
                CallerIdentifier::Guid(*caller_id),
                Some(*event_guid),
                Some(fun_name),
                timestamp,
                0,
                KnownPerfId::PerfEventSignalStart.value(),
                PerfAttribute::PerfEntry,
            ),
        ),
{
    log_perf_measurement(
        Measurement::EventSignal,
        CallerIdentifier::Guid(*caller_id),
        Some(event_guid),
        Some(fun_name),
        timestamp,
        0,
        KnownPerfId::PerfEventSignalStart.as_u16(),
        gateway,
    )
}

/// Ends performance measurement of event signal behavior in any module.
pub fn perf_event_signal_end(
    event_guid: &efi::Guid,
    fun_name: &str,
    caller_id: &efi::Guid,
    timestamp: u64,
    gateway: &mut Gateway,
) -> (error: Option<Error>)
    requires
        old(gateway).wf(),
    ensures
        final(gateway).wf(),
        (error, final(gateway)@) == gated(
            old(gateway)@,
            Measurement::EventSignal,
            submitted(
                old(gateway)@,
                CallerIdentifier::Guid(*caller_id),
                Some(*event_guid),
                Some(fun_name),
                timestamp,
                0,
                KnownPerfId::PerfEventSignalEnd.value(),
                PerfAttribute::PerfEntry,
            ),
        ),
{
    log_perf_measurement(
        Measurement::EventSignal,
        CallerIdentifier::Guid(*caller_id),
        Some(event_guid),
        Some(fun_name),
        timestamp,
        0,
        KnownPerfId::PerfEventSignalEnd.as_u16(),
        gateway,
    )
}

/// Begins performance measurement of a callback function in any module.
pub fn perf_callback_begin(
    trigger_guid: &efi::Guid,
    fun_name: &str,
    caller_id: &efi::Guid,
    timestamp: u64,
    gateway: &mut Gateway,
) -> (error: Option<Error>)
    requires
        old(gateway).wf(),
    ensures
        final(gateway).wf(),
        (error, final(gateway)@) == gated(
            old(gateway)@,
            Measurement::Callback,
            submitted(
                old(gateway)@,
                CallerIdentifier::Guid(*caller_id),
                Some(*trigger_guid),
                Some(fun_name),
                timestamp,
                0,
                KnownPerfId::PerfCallbackStart.value(),
                PerfAttribute::PerfEntry,
            ),
        ),
{
    log_perf_measurement(
        Measurement::Callback,
        CallerIdentifier::Guid(*caller_id),
        Some(trigger_guid),
        Some(fun_name),
        timestamp,
        0,
        KnownPerfId::PerfCallbackStart.as_u16(),
        gateway,
    )
}

/// Ends performance measurement of a callback function in any module.
pub fn perf_callback_end(
    trigger_guid: &efi::Guid,
    fun_name: &str,
    caller_id: &efi::Guid,
    timestamp: u64,
    gateway: &mut Gateway,
) -> (error: Option<Error>)
    requires
        old(gateway).wf(),
    ensures
        final(gateway).wf(),
        (error, final(gateway)@) == gated(
            old(gateway)@,
            Measurement::Callback,
            submitted(
                old(gateway)@,
                CallerIdentifier::Guid(*caller_id),
                Some(*trigger_guid),
                Some(fun_name),
                timestamp,
                0,
                KnownPerfId::PerfCallbackEnd.value(),
                PerfAttribute::PerfEntry,
            ),
        ),
{
    log_perf_measurement(
        Measurement::Callback,
        CallerIdentifier::Guid(*caller_id),
        Some(trigger_guid),
        Some(fun_name),
        timestamp,
        0,
        KnownPerfId::PerfCallbackEnd.as_u16(),
        gateway,
    )
}

/// Begins performance measurement of any function in any module.
pub fn perf_function_begin(
    fun_name: &str,
    caller_id: &efi::Guid,
    timestamp: u64,
    gateway: &mut Gateway,
) -> (error: Option<Error>)
    requires
        old(gateway).wf(),
    ensures
        final(gateway).wf(),
        (error, final(gateway)@) == gated(
            old(gateway)@,
            Measurement::Function,
            submitted(
                old(gateway)@,
                CallerIdentifier::Guid(*caller_id),
                None,
                Some(fun_name),
                timestamp,
                0,
                KnownPerfId::PerfFunctionStart.value(),
                PerfAttribute::PerfEntry,
            ),
        ),
{
    log_perf_measurement(
        Measurement::Function,
        CallerIdentifier::Guid(*caller_id),
        None,
        Some(fun_name),
        timestamp,
        0,
        KnownPerfId::PerfFunctionStart.as_u16(),
        gateway,
    )
}

/// Ends performance measurement of any function in any module.
pub fn perf_function_end(
    fun_name: &str,
    caller_id: &efi::Guid,
    timestamp: u64,
    gateway: &mut Gateway,
) -> (error: Option<Error>)
    requires
        old(gateway).wf(),
    ensures
        final(gateway).wf(),
        (error, final(gateway)@) == gated(
            old(gateway)@,
            Measurement::Function,
            submitted(
                old(gateway)@,
                CallerIdentifier::Guid(*caller_id),
                None,
                Some(fun_name),
                timestamp,
                0,
                KnownPerfId::PerfFunctionEnd.value(),
                PerfAttribute::PerfEntry,
            ),
        ),
{
    log_perf_measurement(
        Measurement::Function,
        CallerIdentifier::Guid(*caller_id),
        None,
        Some(fun_name),
        timestamp,
        0,
        KnownPerfId::PerfFunctionEnd.as_u16(),
        gateway,
    )
}

/// Begins performance measurement of a behavior within one module.
pub fn perf_in_module_begin(
    measurement_str: &str,
    caller_id: &efi::Guid,
    timestamp: u64,
    gateway: &mut Gateway,
) -> (error: Option<Error>)
    requires
        old(gateway).wf(),
    ensures
        final(gateway).wf(),
        (error, final(gateway)@) == gated(
            old(gateway)@,
            Measurement::InModule,
            submitted(
                old(gateway)@,
                CallerIdentifier::Guid(*caller_id),
                None,
                Some(measurement_str),
                timestamp,
                0,
                KnownPerfId::PerfInModuleStart.value(),
                PerfAttribute::PerfEntry,
            ),
        ),
{
    log_perf_measurement(
        Measurement::InModule,
        CallerIdentifier::Guid(*caller_id),
        None,
        Some(measurement_str),
        timestamp,
        0,
        KnownPerfId::PerfInModuleStart.as_u16(),
        gateway,
    )
}

/// Ends performance measurement of a behavior within one module.
pub fn perf_in_module_end(
    measurement_str: &str,
    caller_id: &efi::Guid,
    timestamp: u64,
    gateway: &mut Gateway,
) -> (error: Option<Error>)
    requires
        old(gateway).wf(),
    ensures
        final(gateway).wf(),
        (error, final(gateway)@) == gated(
            old(gateway)@,
            Measurement::InModule,
            submitted(
                old(gateway)@,
                CallerIdentifier::Guid(*caller_id),
                None,
                Some(measurement_str),
                timestamp,
                0,
                KnownPerfId::PerfInModuleEnd.value(),
                PerfAttribute::PerfEntry,
            ),
        ),
{
    log_perf_measurement(
        Measurement::InModule,
        CallerIdentifier::Guid(*caller_id),
        None,
        Some(measurement_str),
        timestamp,
        0,
        KnownPerfId::PerfInModuleEnd.as_u16(),
        gateway,
    )
}

/// Begins performance measurement of a behavior in different modules.
pub fn perf_cross_module_begin(
    measurement_str: &str,
    caller_id: &efi::Guid,
    timestamp: u64,
    gateway: &mut Gateway,
) -> (error: Option<Error>)
    requires
        old(gateway).wf(),
    ensures
        final(gateway).wf(),
        (error, final(gateway)@) == gated(
            old(gateway)@,
            Measurement::CrossModule,
            submitted(
                old(gateway)@,
                CallerIdentifier::Guid(*caller_id),
                None,
                Some(measurement_str),
                timestamp,
                0,
                KnownPerfId::PerfCrossModuleStart.value(),
                PerfAttribute::PerfEntry,
            ),
        ),
{
    log_perf_measurement(
        Measurement::CrossModule,
        CallerIdentifier::Guid(*caller_id),
        None,
        Some(measurement_str),
        timestamp,
        0,
        KnownPerfId::PerfCrossModuleStart.as_u16(),
        gateway,
    )
}

/// Ends performance measurement of a behavior in different modules.
pub fn perf_cross_module_end(
    measurement_str: &str,
    caller_id: &efi::Guid,
    timestamp: u64,
    gateway: &mut Gateway,
) -> (error: Option<Error>)
    requires
        old(gateway).wf(),
    ensures
        final(gateway).wf(),
        (error, final(gateway)@) == gated(
            old(gateway)@,
            Measurement::CrossModule,
            submitted(
                old(gateway)@,
                CallerIdentifier::Guid(*caller_id),
                None,
                Some(measurement_str),
                timestamp,
                0,
                KnownPerfId::PerfCrossModuleEnd.value(),
                PerfAttribute::PerfEntry,
            ),
        ),
{
    log_perf_measurement(
        Measurement::CrossModule,
        CallerIdentifier::Guid(*caller_id),
        None,
        Some(measurement_str),
        timestamp,
        0,
        KnownPerfId::PerfCrossModuleEnd.as_u16(),
        gateway,
    )
}

/// Adds a record that records the start time of a performance measurement. The identifier is
/// derived from the token.
pub fn perf_start(
    handle: ModuleHandle,
    token: Option<&str>,
    module: Option<&str>,
    timestamp: u64,
    gateway: &mut Gateway,
) -> (error: Option<Error>)
    requires
        old(gateway).wf(),
    ensures
        final(gateway).wf(),
        (error, final(gateway)@) == gated(
            old(gateway)@,
            Measurement::StartEnd,
            submitted(
                old(gateway)@,
                CallerIdentifier::Handle(handle),
                None,
                first_of(token, module),
                timestamp,
                0,
                0,
                PerfAttribute::PerfStartEntry,
            ),
        ),
{
    assert(0u32 & 0xFFFF == 0) by (bit_vector);
    start_perf_measurement(handle, token, module, timestamp, 0, gateway)
}

/// Adds a record that records the end time of a performance measurement. The identifier is
/// derived from the token.
pub fn perf_end(
    handle: ModuleHandle,
    token: Option<&str>,
    module: Option<&str>,
    timestamp: u64,
    gateway: &mut Gateway,
) -> (error: Option<Error>)
    requires
        old(gateway).wf(),
    ensures
        final(gateway).wf(),
        (error, final(gateway)@) == gated(
            old(gateway)@,
            Measurement::StartEnd,
            submitted(
                old(gateway)@,
                CallerIdentifier::Handle(handle),
                None,
                first_of(token, module),
                timestamp,
                0,
                0,
                PerfAttribute::PerfEndEntry,
            ),
        ),
{
    assert(0u32 & 0xFFFF == 0) by (bit_vector);
    end_perf_measurement(handle, token, module, timestamp, 0, gateway)
}

/// Adds a record that records the start time of a performance measurement with the given
/// identifier.
pub fn perf_start_ex(
    handle: ModuleHandle,
    token: Option<&str>,
    module: Option<&str>,
    timestamp: u64,
    identifier: u32,
    gateway: &mut Gateway,
) -> (error: Option<Error>)
    requires
        old(gateway).wf(),
    ensures
        final(gateway).wf(),
        (error, final(gateway)@) == gated(
            old(gateway)@,
            Measurement::StartEnd,
            submitted(
                old(gateway)@,
                CallerIdentifier::Handle(handle),
                None,
                first_of(token, module),
                timestamp,
                0,
                low_word(identifier),
                PerfAttribute::PerfStartEntry,
            ),
        ),
{
    start_perf_measurement(handle, token, module, timestamp, identifier, gateway)
}

/// Adds a record that records the end time of a performance measurement with the given
/// identifier.
pub fn perf_end_ex(
    handle: ModuleHandle,
    token: Option<&str>,
    module: Option<&str>,
    timestamp: u64,
    identifier: u32,
    gateway: &mut Gateway,
) -> (error: Option<Error>)
    requires
        old(gateway).wf(),
    ensures
        final(gateway).wf(),
        (error, final(gateway)@) == gated(
            old(gateway)@,
            Measurement::StartEnd,
            submitted(
                old(gateway)@,
                CallerIdentifier::Handle(handle),
                None,
                first_of(token, module),
                timestamp,
                0,
                low_word(identifier),
                PerfAttribute::PerfEndEntry,
            ),
        ),
{
    end_perf_measurement(handle, token, module, timestamp, identifier, gateway)
}

/// The measurement of the start of an image and the measurement of its end, for a handle
/// that is not null and refers to a module, with the kind switched on and room in the
/// buffer for both records: each appends exactly one record of a GUID alone that carries
/// the GUID of the module, the first with the identifier of the start of a module, the
/// second with the identifier of its end.
pub proof fn lemma_image_start_records(
    state: GatewayState,
    handle: ModuleHandle,
    module_guid: efi::Guid,
    start_time: u64,
    end_time: u64,
)
    requires
        state.enabled(Measurement::StartImage),
        handle.address != 0,
        handle.module_guid == Some(module_guid),
        concat(state.records).len() + 2 * (RECORD_HEADER_SIZE + COMMON_DATA_SIZE) <= state.capacity,
    ensures
        ({
            let begin = gated(
                state,
                Measurement::StartImage,
                submitted(
                    state,
                    CallerIdentifier::Handle(handle),
                    None,
                    None,
                    start_time,
                    0,
                    KnownPerfId::ModuleStart.value(),
                    PerfAttribute::PerfEntry,
                ),
            );
            let end = gated(
                begin.1,
                Measurement::StartImage,
                submitted(
                    begin.1,
                    CallerIdentifier::Handle(handle),
                    None,
                    None,
                    end_time,
                    0,
                    KnownPerfId::ModuleEnd.value(),
                    PerfAttribute::PerfEntry,
                ),
            );
            &&& begin.0 is None
            &&& begin.1.records == state.records.push(
                encoded(
                    GuidEventRecord::TYPE,
                    GuidEventRecord::REVISION,
                    common_data(KnownPerfId::ModuleStart.value(), 0, start_time, module_guid),
                ),
            )
            &&& end.0 is None
            &&& end.1.records == begin.1.records.push(
                encoded(
                    GuidEventRecord::TYPE,
                    GuidEventRecord::REVISION,
                    common_data(KnownPerfId::ModuleEnd.value(), 0, end_time, module_guid),
                ),
            )
        }),
{
    let first = encoded(
        GuidEventRecord::TYPE,
        GuidEventRecord::REVISION,
        common_data(KnownPerfId::ModuleStart.value(), 0, start_time, module_guid),
    );
    lemma_common_data_layout(KnownPerfId::ModuleStart.value(), 0, start_time, module_guid);
    lemma_common_data_layout(KnownPerfId::ModuleEnd.value(), 0, end_time, module_guid);
    lemma_record_layout(
        GuidEventRecord::TYPE,
        GuidEventRecord::REVISION,
        common_data(KnownPerfId::ModuleStart.value(), 0, start_time, module_guid),
    );
    lemma_record_layout(
        GuidEventRecord::TYPE,
        GuidEventRecord::REVISION,
        common_data(KnownPerfId::ModuleEnd.value(), 0, end_time, module_guid),
    );
    assert(state.records.push(first).drop_last() =~= state.records);
}

} // verus!
