use patina_performance::buffer::{RecordBuffer, MIN_BUFFER_SIZE};
use patina_performance::error::{EfiError, Error};
use patina_performance::gateway::{Gateway, Measurement};
use patina_performance::known::PerfAttribute;
use patina_performance::measurement::{
    build_record, prepare_measurement, CallerIdentifier, MeasurementRecord, ModuleHandle, RESERVED_ID_LIMIT,
};
use patina_performance::record::{DynamicStringEventRecord, GuidEventRecord, PerformanceRecord};
use r_efi::efi;

fn module_guid() -> efi::Guid {
    efi::Guid::from_fields(0x00112233, 0x4455, 0x6677, 0x88, 0x99, &[0xaa, 0xbb, 0xcc, 0xdd, 0xee, 0xff])
}

fn other_guid() -> efi::Guid {
    efi::Guid::from_fields(0xa1b2c3d4, 0xe5f6, 0x0718, 0x29, 0x3a, &[0x4b, 0x5c, 0x6d, 0x7e, 0x8f, 0x90])
}

const MODULE_GUID_BYTES: [u8; 16] =
    [0x33, 0x22, 0x11, 0x00, 0x55, 0x44, 0x77, 0x66, 0x88, 0x99, 0xaa, 0xbb, 0xcc, 0xdd, 0xee, 0xff];
const OTHER_GUID_BYTES: [u8; 16] =
    [0xd4, 0xc3, 0xb2, 0xa1, 0xf6, 0xe5, 0x18, 0x07, 0x29, 0x3a, 0x4b, 0x5c, 0x6d, 0x7e, 0x8f, 0x90];

fn handle() -> CallerIdentifier {
    CallerIdentifier::Handle(ModuleHandle { address: 0x2000, module_guid: Some(module_guid()) })
}

fn invalid_parameter<T>(result: &Result<T, Error>) -> bool {
    matches!(result, Err(Error::Efi(EfiError::InvalidParameter)))
}

#[test]
fn test_buffer_too_small() {
    assert_eq!(MIN_BUFFER_SIZE, 34);
    assert!(matches!(RecordBuffer::new(vec![0u8; 0]), Err(Error::BufferTooSmall)));
    assert!(matches!(RecordBuffer::new(vec![0u8; 33]), Err(Error::BufferTooSmall)));
    assert!(RecordBuffer::new(vec![0u8; 34]).is_ok());
    assert!(matches!(Gateway::new(vec![0u8; 33], 0), Err(Error::BufferTooSmall)));
    assert!(Gateway::new(vec![0u8; 34], 0).is_ok());
}

#[test]
fn test_buffer_appends_records() {
    let mut buffer = RecordBuffer::new(vec![0u8; 80]).unwrap();
    assert_eq!(buffer.capacity(), 80);
    assert_eq!(buffer.len(), 0);
    assert_eq!(buffer.record_count(), 0);
    assert_eq!(buffer.as_bytes(), &[] as &[u8]);

    let first = GuidEventRecord::new(1, 0, 5, module_guid());
    assert!(buffer.add_record(&first).is_ok());
    assert_eq!(buffer.len(), 34);
    assert_eq!(buffer.record_count(), 1);

    let second = DynamicStringEventRecord::new(2, 0, 6, other_guid(), "abc");
    assert!(buffer.add_record(&second).is_ok());
    assert_eq!(buffer.len(), 34 + 38);
    assert_eq!(buffer.record_count(), 2);

    let mut expected = vec![0x10, 0x10, 34, 1, 1, 0, 0, 0, 0, 0, 5, 0, 0, 0, 0, 0, 0, 0];
    expected.extend_from_slice(&MODULE_GUID_BYTES);
    expected.extend_from_slice(&[0x11, 0x10, 38, 1, 2, 0, 0, 0, 0, 0, 6, 0, 0, 0, 0, 0, 0, 0]);
    expected.extend_from_slice(&OTHER_GUID_BYTES);
    expected.extend_from_slice(&[b'a', b'b', b'c', 0]);
    assert_eq!(buffer.as_bytes(), &expected[..]);

    // 8 bytes are left
    assert!(matches!(buffer.add_record(&first), Err(Error::OutOfResources)));
    assert_eq!(buffer.len(), 72);
    assert_eq!(buffer.record_count(), 2);
    assert_eq!(buffer.as_bytes(), &expected[..]);
    assert_eq!(buffer.capacity(), 80);
}

#[test]
fn test_buffer_takes_a_record_that_just_fits() {
    let mut buffer = RecordBuffer::new(vec![0u8; 68]).unwrap();
    let record = GuidEventRecord::new(1, 0, 5, module_guid());
    assert!(buffer.add_record(&record).is_ok());
    assert!(buffer.add_record(&record).is_ok());
    assert_eq!(buffer.len(), 68);
    assert!(matches!(buffer.add_record(&record), Err(Error::OutOfResources)));
    assert_eq!(buffer.record_count(), 2);
}

#[test]
fn test_buffer_refuses_a_record_that_is_too_large() {
    let mut buffer = RecordBuffer::new(vec![0u8; 1000]).unwrap();
    let text = "x".repeat(221);
    let record = DynamicStringEventRecord::new(1, 0, 0, module_guid(), &text);
    assert!(matches!(buffer.add_record(&record), Err(Error::RecordTooLarge { size: 256 })));
    assert_eq!(buffer.len(), 0);
    assert_eq!(buffer.record_count(), 0);
    let text = "x".repeat(220);
    let record = DynamicStringEventRecord::new(1, 0, 0, module_guid(), &text);
    assert!(buffer.add_record(&record).is_ok());
    assert_eq!(buffer.len(), 255);

    // the size of the record comes before the room in the buffer
    let mut buffer = RecordBuffer::new(vec![0u8; 40]).unwrap();
    let text = "x".repeat(300);
    let record = DynamicStringEventRecord::new(1, 0, 0, module_guid(), &text);
    assert!(matches!(buffer.add_record(&record), Err(Error::RecordTooLarge { size: 335 })));
}

#[test]
fn test_perf_id_is_guid() {
    assert_eq!(RESERVED_ID_LIMIT, 0x10);
    for id in [0x00u16, 0x10, 0x11, 0x20, 0x21, 0x30, 0x31, 0x40, 0x41, 0x50, 0x51] {
        assert!(CallerIdentifier::perf_id_is_guid(id));
    }
    for id in [0x01u16, 0x02, 0x05, 0x0A, 0x0B, 0x0F, 0x12, 0x22, 0x52, 0x60, 0x1234, 0xFFFF] {
        assert!(!CallerIdentifier::perf_id_is_guid(id));
    }
}

#[test]
fn test_from_address() {
    assert!(CallerIdentifier::from_address(0, true, Some(module_guid())).is_none());
    assert!(CallerIdentifier::from_address(0, false, Some(module_guid())).is_none());
    assert!(CallerIdentifier::from_address(0, false, None).is_none());
    assert!(CallerIdentifier::from_address(0x1000, true, None).is_none());
    assert!(matches!(
        CallerIdentifier::from_address(0x1000, true, Some(module_guid())),
        Some(CallerIdentifier::Guid(guid)) if guid == module_guid()
    ));
    assert!(matches!(
        CallerIdentifier::from_address(0x1000, false, Some(module_guid())),
        Some(CallerIdentifier::Handle(ModuleHandle { address: 0x1000, module_guid: Some(guid) }))
            if guid == module_guid()
    ));
    assert!(matches!(
        CallerIdentifier::from_address(0x1000, false, None),
        Some(CallerIdentifier::Handle(ModuleHandle { address: 0x1000, module_guid: None }))
    ));
}

#[test]
fn test_guid_for() {
    let guid = CallerIdentifier::Guid(other_guid());
    let null = CallerIdentifier::Handle(ModuleHandle { address: 0, module_guid: Some(module_guid()) });
    let unknown = CallerIdentifier::Handle(ModuleHandle { address: 0x2000, module_guid: None });
    assert!(guid.is_present());
    assert!(handle().is_present());
    assert!(!null.is_present());
    assert!(unknown.is_present());

    // the single event takes a GUID
    assert_eq!(guid.guid_for(0x00), Some(other_guid()));
    assert_eq!(handle().guid_for(0x00), None);
    // the rest of the reserved range takes a handle
    for id in 0x01..0x10u16 {
        assert_eq!(guid.guid_for(id), None);
        assert_eq!(handle().guid_for(id), Some(module_guid()));
        assert_eq!(null.guid_for(id), None);
        assert_eq!(unknown.guid_for(id), None);
    }
    // above it both are taken
    for id in [0x10u16, 0x11, 0x40, 0x51, 0x52, 0x1230, 0xFFFF] {
        assert_eq!(guid.guid_for(id), Some(other_guid()));
        assert_eq!(handle().guid_for(id), Some(module_guid()));
        assert_eq!(null.guid_for(id), None);
        assert_eq!(unknown.guid_for(id), None);
    }
}

#[test]
fn test_build_record_selects_the_layout() {
    let event = other_guid();
    let record = build_record(handle(), None, None, 9, 0, 0x01).unwrap();
    assert!(matches!(&record, MeasurementRecord::Guid(r)
        if r.progress_id == 0x01 && r.acpi_id == 0 && r.timestamp == 9 && r.guid == module_guid()));
    assert_eq!(record.record_type(), 0x1010);

    let record = build_record(handle(), None, Some("text"), 9, 0, 0x1230).unwrap();
    assert!(matches!(&record, MeasurementRecord::DynamicString(r)
        if r.progress_id == 0x1230 && r.acpi_id == 0 && r.timestamp == 9 && r.guid == module_guid()
            && r.string == "text"));
    assert_eq!(record.record_type(), 0x1011);

    let record = build_record(CallerIdentifier::Guid(module_guid()), Some(&event), Some("f"), 9, 0, 0x10).unwrap();
    assert!(matches!(&record, MeasurementRecord::DualGuidString(r)
        if r.progress_id == 0x10 && r.acpi_id == 0 && r.timestamp == 9 && r.guid_1 == module_guid()
            && r.guid_2 == other_guid() && r.string == "f"));
    assert_eq!(record.record_type(), 0x1012);

    let record = build_record(handle(), None, None, 9, 0xABCD, 0x05).unwrap();
    assert!(matches!(&record, MeasurementRecord::GuidQword(r)
        if r.progress_id == 0x05 && r.acpi_id == 0 && r.timestamp == 9 && r.guid == module_guid()
            && r.qword == 0xABCD));
    assert_eq!(record.record_type(), 0x1013);

    let record = build_record(handle(), None, Some("path"), 9, 0xABCD, 0x06).unwrap();
    assert!(matches!(&record, MeasurementRecord::GuidQwordString(r)
        if r.progress_id == 0x06 && r.acpi_id == 0 && r.timestamp == 9 && r.guid == module_guid()
            && r.qword == 0xABCD && r.string == "path"));
    assert_eq!(record.record_type(), 0x1014);
    assert_eq!(record.revision(), 1);
}

#[test]
fn test_build_record_refuses_what_no_layout_holds() {
    let event = other_guid();
    let guid = CallerIdentifier::Guid(module_guid());
    assert!(invalid_parameter(&build_record(guid, Some(&event), None, 9, 0, 0x10)));
    assert!(invalid_parameter(&build_record(guid, Some(&event), None, 9, 7, 0x10)));
    assert!(invalid_parameter(&build_record(guid, Some(&event), Some("f"), 9, 7, 0x10)));
}

#[test]
fn test_build_record_refuses_a_caller_of_the_wrong_kind() {
    let guid = CallerIdentifier::Guid(module_guid());
    assert!(invalid_parameter(&build_record(guid, None, None, 9, 0, 0x01)));
    assert!(invalid_parameter(&build_record(handle(), None, Some("event"), 9, 0, 0x00)));
    let null = CallerIdentifier::Handle(ModuleHandle { address: 0, module_guid: Some(module_guid()) });
    assert!(invalid_parameter(&build_record(null, None, None, 9, 0, 0x01)));
    let unknown = CallerIdentifier::Handle(ModuleHandle { address: 0x2000, module_guid: None });
    assert!(invalid_parameter(&build_record(unknown, None, None, 9, 0, 0x01)));
}

#[test]
fn test_prepare_measurement_resolves_the_identifier() {
    let record =
        prepare_measurement(handle(), None, Some("TestToken"), 9, 0, 0x1234, PerfAttribute::PerfStartEntry)
            .unwrap();
    assert!(matches!(&record, MeasurementRecord::DynamicString(r) if r.progress_id == 0x1230));
    let record =
        prepare_measurement(handle(), None, Some("TestToken"), 9, 0, 0x1230, PerfAttribute::PerfEndEntry).unwrap();
    assert!(matches!(&record, MeasurementRecord::DynamicString(r) if r.progress_id == 0x1231));
    let record =
        prepare_measurement(handle(), None, Some("StartImage:"), 9, 0, 0, PerfAttribute::PerfEndEntry).unwrap();
    assert!(matches!(&record, MeasurementRecord::DynamicString(r) if r.progress_id == 0x02));
    let record = prepare_measurement(handle(), None, None, 9, 0, 0, PerfAttribute::PerfStartEntry).unwrap();
    assert!(matches!(&record, MeasurementRecord::Guid(r) if r.progress_id == 0x40));
    let record = prepare_measurement(handle(), None, None, 9, 0, 0x1234, PerfAttribute::PerfEntry).unwrap();
    assert!(matches!(&record, MeasurementRecord::Guid(r) if r.progress_id == 0x1234));

    assert!(invalid_parameter(&prepare_measurement(
        handle(),
        None,
        Some("StartImage:"),
        9,
        0,
        0x01,
        PerfAttribute::PerfStartEntry
    )));
    let null = CallerIdentifier::Handle(ModuleHandle { address: 0, module_guid: None });
    assert!(invalid_parameter(&prepare_measurement(null, None, None, 9, 0, 0, PerfAttribute::PerfStartEntry)));
}

#[test]
fn test_gateway_records_a_measurement() {
    let mut gateway = Gateway::new(vec![0u8; 100], 0).unwrap();
    assert_eq!(gateway.capacity(), 100);
    assert_eq!(gateway.record_count(), 0);
    assert!(!gateway.buffer_full_reported());

    let result = gateway.create_performance_measurement(
        handle(),
        None,
        Some("TestToken"),
        0x0807060504030201,
        0,
        0x1234,
        PerfAttribute::PerfStartEntry,
    );
    assert!(result.is_ok());
    assert_eq!(gateway.record_count(), 1);
    let mut expected = vec![0x11, 0x10, 44, 1, 0x30, 0x12, 0, 0, 0, 0, 1, 2, 3, 4, 5, 6, 7, 8];
    expected.extend_from_slice(&MODULE_GUID_BYTES);
    expected.extend_from_slice(b"TestToken\0");
    assert_eq!(gateway.as_bytes(), &expected[..]);

    // a refused measurement leaves the gateway as it was
    let result = gateway.create_performance_measurement(
        handle(),
        None,
        Some("StartImage:"),
        1,
        0,
        0x01,
        PerfAttribute::PerfStartEntry,
    );
    assert!(invalid_parameter(&result));
    assert_eq!(gateway.record_count(), 1);
    assert_eq!(gateway.as_bytes(), &expected[..]);

    // so does one that finds the buffer full, and one that is too large
    let text = "x".repeat(60);
    let result =
        gateway.create_performance_measurement(handle(), None, Some(&text), 1, 0, 0x1234, PerfAttribute::PerfEntry);
    assert!(matches!(result, Err(Error::OutOfResources)));
    let text = "x".repeat(221);
    let result =
        gateway.create_performance_measurement(handle(), None, Some(&text), 1, 0, 0x1234, PerfAttribute::PerfEntry);
    assert!(matches!(result, Err(Error::RecordTooLarge { size: 256 })));
    assert_eq!(gateway.record_count(), 1);
    assert_eq!(gateway.as_bytes(), &expected[..]);

    // the final identifier is taken as it is
    let result = gateway.record_measurement(handle(), None, None, 2, 0x55, 0x0000_0007);
    assert!(result.is_ok());
    assert_eq!(gateway.record_count(), 2);
    let mut second = vec![0x13, 0x10, 42, 1, 7, 0, 0, 0, 0, 0, 2, 0, 0, 0, 0, 0, 0, 0];
    second.extend_from_slice(&MODULE_GUID_BYTES);
    second.extend_from_slice(&[0x55, 0, 0, 0, 0, 0, 0, 0]);
    expected.extend_from_slice(&second);
    assert_eq!(gateway.as_bytes(), &expected[..]);
}

#[test]
fn test_measurement_mask() {
    assert_eq!(Measurement::StartImage.as_u32(), 0x01);
    assert_eq!(Measurement::LoadImage.as_u32(), 0x02);
    assert_eq!(Measurement::DriverBindingSupport.as_u32(), 0x04);
    assert_eq!(Measurement::DriverBindingStart.as_u32(), 0x08);
    assert_eq!(Measurement::DriverBindingStop.as_u32(), 0x10);
    assert_eq!(Measurement::Event.as_u32(), 0x20);
    assert_eq!(Measurement::EventSignal.as_u32(), 0x40);
    assert_eq!(Measurement::Callback.as_u32(), 0x80);
    assert_eq!(Measurement::Function.as_u32(), 0x100);
    assert_eq!(Measurement::InModule.as_u32(), 0x200);
    assert_eq!(Measurement::CrossModule.as_u32(), 0x400);
    assert_eq!(Measurement::StartEnd.as_u32(), 0x800);

    let mut gateway = Gateway::new(vec![0u8; 100], 0x11).unwrap();
    assert_eq!(gateway.measurement_mask(), 0x11);
    assert!(gateway.is_enabled(Measurement::StartImage));
    assert!(gateway.is_enabled(Measurement::DriverBindingStop));
    assert!(!gateway.is_enabled(Measurement::DriverBindingStart));
    assert!(!gateway.is_enabled(Measurement::DriverBindingSupport));
    assert!(!gateway.is_enabled(Measurement::LoadImage));
    gateway.set_measurement_mask(0x0E);
    assert_eq!(gateway.measurement_mask(), 0x0E);
    assert!(!gateway.is_enabled(Measurement::StartImage));
    assert!(gateway.is_enabled(Measurement::LoadImage));
    assert!(gateway.is_enabled(Measurement::DriverBindingSupport));
    assert!(gateway.is_enabled(Measurement::DriverBindingStart));
    assert!(!gateway.is_enabled(Measurement::DriverBindingStop));
    assert!(!gateway.is_enabled(Measurement::Function));
    gateway.set_measurement_mask(0x900);
    assert!(gateway.is_enabled(Measurement::Function));
    assert!(gateway.is_enabled(Measurement::StartEnd));
    assert!(!gateway.is_enabled(Measurement::Event));
    assert!(!gateway.is_enabled(Measurement::EventSignal));
    assert!(!gateway.is_enabled(Measurement::Callback));
    assert!(!gateway.is_enabled(Measurement::InModule));
    assert!(!gateway.is_enabled(Measurement::CrossModule));
    assert!(!gateway.is_enabled(Measurement::StartImage));
    assert_eq!(gateway.record_count(), 0);
    assert_eq!(gateway.capacity(), 100);
}

#[test]
fn test_buffer_works_in_the_memory_it_is_given() {
    // what the memory held before does not show
    let mut buffer = RecordBuffer::new(vec![0xA5u8; 50]).unwrap();
    assert_eq!(buffer.capacity(), 50);
    assert_eq!(buffer.len(), 0);
    assert_eq!(buffer.as_bytes(), &[] as &[u8]);
    let record = GuidEventRecord::new(0x0201, 0, 0, module_guid());
    assert!(buffer.add_record(&record).is_ok());
    let mut expected = vec![0x10, 0x10, 34, 1, 0x01, 0x02, 0, 0, 0, 0, 0, 0, 0, 0, 0, 0, 0, 0];
    expected.extend_from_slice(&MODULE_GUID_BYTES);
    assert_eq!(buffer.as_bytes(), &expected[..]);
    assert!(matches!(buffer.add_record(&record), Err(Error::OutOfResources)));
    assert_eq!(buffer.as_bytes(), &expected[..]);
}
