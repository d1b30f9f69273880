//! The performance records and their binary layout.
//!
//! A record is encoded as a four-byte header (the type in little-endian order, the length
//! of the whole record, the revision) followed by the data of the record.

use crate::error::Error;
use crate::guid::guid_bytes;
use crate::writer::{
    has_space, le_bytes_u16, le_bytes_u32, le_bytes_u64, le_bytes_u8, lemma_overwrite_twice,
    overwrite, write_bytes, write_outcome, write_u16_le, write_u32_le, write_u64_le, write_u8,
};
use r_efi::efi;
use vstd::prelude::*;
use vstd::string::*;

verus! {

/// The number of bytes of a record header.
pub const RECORD_HEADER_SIZE: usize = 4;

/// The largest size of an encoded record, header included: the length field is one byte.
pub const MAX_RECORD_SIZE: usize = 255;

/// The number of bytes of the data that every record starts with.
pub const COMMON_DATA_SIZE: usize = 30;

/// The bytes that every record starts its data with: the progress identifier, the
/// identifier of the clock source, the timestamp and the first GUID.
pub open spec fn common_data(progress_id: u16, acpi_id: u32, timestamp: u64, guid: efi::Guid) -> Seq<
    u8,
> {
    le_bytes_u16(progress_id) + le_bytes_u32(acpi_id) + le_bytes_u64(timestamp) + guid_bytes(guid)@
}

/// The bytes of a string in a record: the bytes of the text, then one zero byte.
pub open spec fn terminated(string: &str) -> Seq<u8> {
    string.spec_bytes() + seq![0u8]
}

/// The header of a record of the given type and revision whose data is `data_len` bytes
/// long.
pub open spec fn header_bytes(record_type: u16, revision: u8, data_len: nat) -> Seq<u8> {
    le_bytes_u16(record_type) + seq![(RECORD_HEADER_SIZE + data_len) as u8, revision]
}

/// `n`, or the largest `usize` where `n` is beyond it.
pub open spec fn saturated(n: int) -> usize {
    if n <= usize::MAX {
        n as usize
    } else {
        usize::MAX
    }
}

/// The encoding of a record of the given type and revision with the given data: the
/// header, then the data.
pub open spec fn encoded(record_type: u16, revision: u8, data: Seq<u8>) -> Seq<u8> {
    header_bytes(record_type, revision, data.len()) + data
}

/// What encoding a record into `buffer` at `offset` returns, and the buffer and the offset
/// that it leaves behind.
pub open spec fn encode_outcome(
    record_type: u16,
    revision: u8,
    data: Seq<u8>,
    buffer: Seq<u8>,
    offset: usize,
) -> (Result<usize, Error>, Seq<u8>, int) {
    let size = RECORD_HEADER_SIZE + data.len();
    if size > MAX_RECORD_SIZE {
        (Err(Error::RecordTooLarge { size: saturated(size) }), buffer, offset as int)
    } else if !has_space(buffer.len() as int, offset as int, size) {
        (Err(Error::Serialization), buffer, offset as int)
    } else {
        (
            Ok(size as usize),
            overwrite(buffer, offset as int, encoded(record_type, revision, data)),
            offset + size,
        )
    }
}

/// A record of the performance table.
pub trait PerformanceRecord {
    /// The type that identifies the layout of the record.
    spec fn type_id(&self) -> u16;

    /// The revision of the layout.
    spec fn revision_number(&self) -> u8;

    /// The data of the record, as it is encoded behind the header.
    spec fn data(&self) -> Seq<u8>;

    /// Returns the type that identifies the layout of the record.
    fn record_type(&self) -> (record_type: u16)
        ensures
            record_type == self.type_id(),
    ;

    /// Returns the revision of the layout.
    fn revision(&self) -> (revision: u8)
        ensures
            revision == self.revision_number(),
    ;

    /// Returns the number of bytes of the data, or `usize::MAX` if it is beyond that.
    fn data_size(&self) -> (size: usize)
        ensures
            size == saturated(self.data().len() as int),
    ;

    /// Writes the data of the record into `buff` at `offset` and moves the offset past it.
    /// Where the data does not fit, nothing is written and the offset stays.
    fn write_data_into(&self, buff: &mut [u8], offset: &mut usize) -> (result: Result<(), Error>)
        ensures
            write_outcome(
                result,
                old(buff)@,
                *old(offset),
                self.data(),
                final(buff)@,
                *final(offset),
            ),
    ;

    /// Writes the whole record, header and data, into `buff` at `offset`, moves the offset
    /// past it and returns the number of bytes written. A record of more than
    /// `MAX_RECORD_SIZE` bytes is refused before anything is written, and so is one that
    /// does not fit into the rest of the buffer.
    fn write_into(&self, buff: &mut [u8], offset: &mut usize) -> (result: Result<usize, Error>)
        ensures
            (result, final(buff)@, *final(offset) as int) == encode_outcome(
                self.type_id(),
                self.revision_number(),
                self.data(),
                old(buff)@,
                *old(offset),
            ),
    {
        let data_size = self.data_size();
        if data_size > MAX_RECORD_SIZE - RECORD_HEADER_SIZE {
            let size = if data_size > usize::MAX - RECORD_HEADER_SIZE {
                usize::MAX
            } else {
                RECORD_HEADER_SIZE + data_size
            };
            return Err(Error::RecordTooLarge { size });
        }
        let size = RECORD_HEADER_SIZE + data_size;
        let len = buff.len();
        if *offset > len || len - *offset < size {
            return Err(Error::Serialization);
        }
        let ghost start = *offset as int;
        let ghost b0 = buff@;
        let ghost header = header_bytes(self.type_id(), self.revision_number(), self.data().len());
        write_u16_le(buff, offset, self.record_type())?;
        write_u8(buff, offset, size as u8)?;
        proof {
            lemma_overwrite_twice(b0, start, le_bytes_u16(self.type_id()), le_bytes_u8(size as u8));
        }
        write_u8(buff, offset, self.revision())?;
        proof {
            lemma_overwrite_twice(
                b0,
                start,
                le_bytes_u16(self.type_id()) + le_bytes_u8(size as u8),
                le_bytes_u8(self.revision_number()),
            );
            assert(le_bytes_u16(self.type_id()) + le_bytes_u8(size as u8) + le_bytes_u8(
                self.revision_number(),
            ) =~= header);
        }
        self.write_data_into(buff, offset)?;
        proof {
            lemma_overwrite_twice(b0, start, header, self.data());
        }
        Ok(size)
    }
}

/// Writes the bytes that every record starts its data with.
fn write_common(
    buff: &mut [u8],
    offset: &mut usize,
    progress_id: u16,
    acpi_id: u32,
    timestamp: u64,
    guid: &efi::Guid,
) -> (result: Result<(), Error>)
    requires
        has_space(old(buff)@.len() as int, *old(offset) as int, COMMON_DATA_SIZE as int),
    ensures
        result is Ok,
        *final(offset) == *old(offset) + COMMON_DATA_SIZE,
        final(buff)@ == overwrite(
            old(buff)@,
            *old(offset) as int,
            common_data(progress_id, acpi_id, timestamp, *guid),
        ),
        common_data(progress_id, acpi_id, timestamp, *guid).len() == COMMON_DATA_SIZE,
{
    let ghost start = *offset as int;
    let ghost b0 = buff@;
    let ghost s1 = le_bytes_u16(progress_id);
    let ghost s2 = le_bytes_u32(acpi_id);
    let ghost s3 = le_bytes_u64(timestamp);
    let ghost s4 = guid_bytes(*guid)@;
    write_u16_le(buff, offset, progress_id)?;
    write_u32_le(buff, offset, acpi_id)?;
    proof {
        lemma_overwrite_twice(b0, start, s1, s2);
    }
    write_u64_le(buff, offset, timestamp)?;
    proof {
        lemma_overwrite_twice(b0, start, s1 + s2, s3);
    }
    write_bytes(buff, offset, guid.as_bytes().as_slice())?;
    proof {
        lemma_overwrite_twice(b0, start, s1 + s2 + s3, s4);
    }
    Ok(())
}

/// Writes the bytes of a string and the zero byte that ends it.
fn write_terminated(buff: &mut [u8], offset: &mut usize, string: &str) -> (result: Result<(), Error>)
    requires
        has_space(old(buff)@.len() as int, *old(offset) as int, terminated(string).len() as int),
    ensures
        result is Ok,
        *final(offset) == *old(offset) + terminated(string).len(),
        final(buff)@ == overwrite(old(buff)@, *old(offset) as int, terminated(string)),
{
    let ghost start = *offset as int;
    let ghost b0 = buff@;
    write_bytes(buff, offset, string.as_bytes())?;
    write_u8(buff, offset, 0)?;
    proof {
        lemma_overwrite_twice(b0, start, string.spec_bytes(), le_bytes_u8(0));
    }
    Ok(())
}

/// Returns `fixed` plus the number of bytes of `string`, or `usize::MAX` if the sum is
/// beyond that.
fn size_with_string(fixed: usize, string: &str) -> (size: usize)
    ensures
        size == saturated(fixed + string.spec_bytes().len()),
{
    let count = string.as_bytes().len();
    if count > usize::MAX - fixed {
        usize::MAX
    } else {
        fixed + count
    }
}

/// Tells whether `fixed` bytes and the bytes of `string` fit into `buff` from `offset` on.
fn fits_with_string(buff: &[u8], offset: usize, fixed: usize, string: &str) -> (fits: bool)
    ensures
        fits == has_space(
            buff@.len() as int,
            offset as int,
            fixed + string.spec_bytes().len(),
        ),
{
    let len = buff.len();
    let count = string.as_bytes().len();
    offset <= len && fixed <= len - offset && count <= len - offset - fixed
}

/// A performance event record which includes a GUID.
#[derive(Debug)]
pub struct GuidEventRecord {
    /// ProgressID < 0x10 are reserved for core performance entries.
    /// Start measurement point shall have lowered one nibble set to zero and
    /// corresponding end points shall have lowered one nibble set to non-zero value;
    /// keeping other nibbles same as start point.
    pub progress_id: u16,
    /// APIC ID for the processor in the system used as a timestamp clock source.
    /// If only one timestamp clock source is used, this field is Reserved and populated as 0.
    pub acpi_id: u32,
    /// 64-bit value (nanosecond) describing elapsed time since the most recent deassertion of processor reset.
    pub timestamp: u64,
    /// If ProgressID < 0x10, GUID of the referenced module; otherwise, GUID of the module logging the event.
    pub guid: efi::Guid,
}

impl GuidEventRecord {
    /// The defined type ID for this record.
    pub const TYPE: u16 = 0x1010;

    /// The current revision version of this structure.
    pub const REVISION: u8 = 1;

    /// Creates a new `GuidEventRecord`.
    pub fn new(progress_id: u16, acpi_id: u32, timestamp: u64, guid: efi::Guid) -> (record: Self)
        ensures
            record == (GuidEventRecord { progress_id, acpi_id, timestamp, guid }),
    {
        Self { progress_id, acpi_id, timestamp, guid }
    }
}

impl PerformanceRecord for GuidEventRecord {
    open spec fn type_id(&self) -> u16 {
        Self::TYPE
    }

    open spec fn revision_number(&self) -> u8 {
        Self::REVISION
    }

    open spec fn data(&self) -> Seq<u8> {
        common_data(self.progress_id, self.acpi_id, self.timestamp, self.guid)
    }

    fn record_type(&self) -> (record_type: u16) {
        Self::TYPE
    }

    fn revision(&self) -> (revision: u8) {
        Self::REVISION
    }

    fn data_size(&self) -> (size: usize) {
        COMMON_DATA_SIZE
    }

    fn write_data_into(&self, buff: &mut [u8], offset: &mut usize) -> (result: Result<(), Error>) {
        let len = buff.len();
        if *offset > len || len - *offset < COMMON_DATA_SIZE {
            return Err(Error::Serialization);
        }
        write_common(buff, offset, self.progress_id, self.acpi_id, self.timestamp, &self.guid)?;
        Ok(())
    }
}

/// A performance event record which includes a GUID and an ASCII string.
#[derive(Debug)]
pub struct DynamicStringEventRecord<'a> {
    /// ProgressID < 0x10 are reserved for core performance entries.
    /// Start measurement point shall have lowered one nibble set to zero and
    /// corresponding end points shall have lowered one nibble set to non-zero value;
    /// keeping other nibbles same as start point.
    pub progress_id: u16,
    /// APIC ID for the processor in the system used as a timestamp clock source.
    /// If only one timestamp clock source is used, this field is Reserved and populated as 0.
    pub acpi_id: u32,
    /// 64-bit value (nanosecond) describing elapsed time since the most recent deassertion of processor reset.
    pub timestamp: u64,
    /// If ProgressID < 0x10, GUID of the referenced module; otherwise, GUID of the module logging the event.
    pub guid: efi::Guid,
    /// ASCII string describing the module. It is written with one null character (0x00) behind it.
    /// It may be module name, function name, or token name.
    pub string: &'a str,
}

impl<'a> DynamicStringEventRecord<'a> {
    /// The defined type ID for this record.
    pub const TYPE: u16 = 0x1011;

    /// The current revision version of this structure.
    pub const REVISION: u8 = 1;

    /// Creates a new `DynamicStringEventRecord`.
    pub fn new(progress_id: u16, acpi_id: u32, timestamp: u64, guid: efi::Guid, string: &'a str) -> (record:
        Self)
        ensures
            record == (DynamicStringEventRecord { progress_id, acpi_id, timestamp, guid, string }),
    {
        Self { progress_id, acpi_id, timestamp, guid, string }
    }
}

impl PerformanceRecord for DynamicStringEventRecord<'_> {
    open spec fn type_id(&self) -> u16 {
        Self::TYPE
    }

    open spec fn revision_number(&self) -> u8 {
        Self::REVISION
    }

    open spec fn data(&self) -> Seq<u8> {
        common_data(self.progress_id, self.acpi_id, self.timestamp, self.guid) + terminated(
            self.string,
        )
    }

    fn record_type(&self) -> (record_type: u16) {
        Self::TYPE
    }

    fn revision(&self) -> (revision: u8) {
        Self::REVISION
    }

    fn data_size(&self) -> (size: usize) {
        size_with_string(COMMON_DATA_SIZE + 1, self.string)
    }

    fn write_data_into(&self, buff: &mut [u8], offset: &mut usize) -> (result: Result<(), Error>) {
        if !fits_with_string(buff, *offset, COMMON_DATA_SIZE + 1, self.string) {
            return Err(Error::Serialization);
        }
        let ghost start = *offset as int;
        let ghost b0 = buff@;
        write_common(buff, offset, self.progress_id, self.acpi_id, self.timestamp, &self.guid)?;
        write_terminated(buff, offset, self.string)?;
        proof {
            lemma_overwrite_twice(
                b0,
                start,
                common_data(self.progress_id, self.acpi_id, self.timestamp, self.guid),
                terminated(self.string),
            );
        }
        Ok(())
    }
}

/// A performance event record which includes two GUIDs and an ASCII string.
#[derive(Debug)]
pub struct DualGuidStringEventRecord<'a> {
    /// ProgressID < 0x10 are reserved for core performance entries.
    /// Start measurement point shall have lowered one nibble set to zero and
    /// corresponding end points shall have lowered one nibble set to non-zero value;
    /// keeping other nibbles same as start point.
    pub progress_id: u16,
    /// APIC ID for the processor in the system used as a timestamp clock source.
    /// If only one timestamp clock source is used, this field is Reserved and populated as 0.
    pub acpi_id: u32,
    /// 64-bit value (nanosecond) describing elapsed time since the most recent deassertion of processor reset.
    pub timestamp: u64,
    /// GUID of the module logging the event.
    pub guid_1: efi::Guid,
    /// Event or Ppi or Protocol GUID for Callback.
    pub guid_2: efi::Guid,
    /// ASCII string describing the module.
    /// It is the function name.
    pub string: &'a str,
}

impl<'a> DualGuidStringEventRecord<'a> {
    /// The defined type ID for this record.
    pub const TYPE: u16 = 0x1012;

    /// The current revision version of this structure.
    pub const REVISION: u8 = 1;

    /// Creates a new `DualGuidStringEventRecord`.
    pub fn new(
        progress_id: u16,
        acpi_id: u32,
        timestamp: u64,
        guid_1: efi::Guid,
        guid_2: efi::Guid,
        string: &'a str,
    ) -> (record: Self)
        ensures
            record == (DualGuidStringEventRecord {
                progress_id,
                acpi_id,
                timestamp,
                guid_1,
                guid_2,
                string,
            }),
    {
        Self { progress_id, acpi_id, timestamp, guid_1, guid_2, string }
    }
}

impl PerformanceRecord for DualGuidStringEventRecord<'_> {
    open spec fn type_id(&self) -> u16 {
        Self::TYPE
    }

    open spec fn revision_number(&self) -> u8 {
        Self::REVISION
    }

    open spec fn data(&self) -> Seq<u8> {
        common_data(self.progress_id, self.acpi_id, self.timestamp, self.guid_1) + guid_bytes(
            self.guid_2,
        )@ + terminated(self.string)
    }

    fn record_type(&self) -> (record_type: u16) {
        Self::TYPE
    }

    fn revision(&self) -> (revision: u8) {
        Self::REVISION
    }

    fn data_size(&self) -> (size: usize) {
        size_with_string(COMMON_DATA_SIZE + 17, self.string)
    }

    fn write_data_into(&self, buff: &mut [u8], offset: &mut usize) -> (result: Result<(), Error>) {
        if !fits_with_string(buff, *offset, COMMON_DATA_SIZE + 17, self.string) {
            return Err(Error::Serialization);
        }
        let ghost start = *offset as int;
        let ghost b0 = buff@;
        let ghost common = common_data(self.progress_id, self.acpi_id, self.timestamp, self.guid_1);
        write_common(buff, offset, self.progress_id, self.acpi_id, self.timestamp, &self.guid_1)?;
        write_bytes(buff, offset, self.guid_2.as_bytes().as_slice())?;
        proof {
            lemma_overwrite_twice(b0, start, common, guid_bytes(self.guid_2)@);
        }
        write_terminated(buff, offset, self.string)?;
        proof {
            lemma_overwrite_twice(
                b0,
                start,
                common + guid_bytes(self.guid_2)@,
                terminated(self.string),
            );
        }
        Ok(())
    }
}

/// A performance event record which includes a GUID and a QWORD.
#[derive(Debug)]
pub struct GuidQwordEventRecord {
    /// ProgressID < 0x10 are reserved for core performance entries.
    /// Start measurement point shall have lowered one nibble set to zero and
    /// corresponding end points shall have lowered one nibble set to non-zero value;
    /// keeping other nibbles same as start point.
    pub progress_id: u16,
    /// APIC ID for the processor in the system used as a timestamp clock source.
    /// If only one timestamp clock source is used, this field is Reserved and populated as 0.
    pub acpi_id: u32,
    /// 64-bit value (nanosecond) describing elapsed time since the most recent deassertion of processor reset.
    pub timestamp: u64,
    /// GUID of the module logging the event.
    pub guid: efi::Guid,
    /// Qword of misc data, meaning depends on the ProgressId.
    pub qword: u64,
}

impl GuidQwordEventRecord {
    /// The defined type ID for this record.
    pub const TYPE: u16 = 0x1013;

    /// The current revision version of this structure.
    pub const REVISION: u8 = 1;

    /// Creates a new `GuidQwordEventRecord`.
    pub fn new(progress_id: u16, acpi_id: u32, timestamp: u64, guid: efi::Guid, qword: u64) -> (record:
        Self)
        ensures
            record == (GuidQwordEventRecord { progress_id, acpi_id, timestamp, guid, qword }),
    {
        Self { progress_id, acpi_id, timestamp, guid, qword }
    }
}

impl PerformanceRecord for GuidQwordEventRecord {
    open spec fn type_id(&self) -> u16 {
        Self::TYPE
    }

    open spec fn revision_number(&self) -> u8 {
        Self::REVISION
    }

    open spec fn data(&self) -> Seq<u8> {
        common_data(self.progress_id, self.acpi_id, self.timestamp, self.guid) + le_bytes_u64(
            self.qword,
        )
    }

    fn record_type(&self) -> (record_type: u16) {
        Self::TYPE
    }

    fn revision(&self) -> (revision: u8) {
        Self::REVISION
    }

    fn data_size(&self) -> (size: usize) {
        COMMON_DATA_SIZE + 8
    }

    fn write_data_into(&self, buff: &mut [u8], offset: &mut usize) -> (result: Result<(), Error>) {
        let len = buff.len();
        if *offset > len || len - *offset < COMMON_DATA_SIZE + 8 {
            return Err(Error::Serialization);
        }
        let ghost start = *offset as int;
        let ghost b0 = buff@;
        write_common(buff, offset, self.progress_id, self.acpi_id, self.timestamp, &self.guid)?;
        write_u64_le(buff, offset, self.qword)?;
        proof {
            lemma_overwrite_twice(
                b0,
                start,
                common_data(self.progress_id, self.acpi_id, self.timestamp, self.guid),
                le_bytes_u64(self.qword),
            );
        }
        Ok(())
    }
}

/// A performance event record which includes a GUID, a QWORD and an ASCII string.
#[derive(Debug)]
pub struct GuidQwordStringEventRecord<'a> {
    /// ProgressID < 0x10 are reserved for core performance entries.
    /// Start measurement point shall have lowered one nibble set to zero and
    /// corresponding end points shall have lowered one nibble set to non-zero value;
    /// keeping other nibbles same as start point.
    pub progress_id: u16,
    /// APIC ID for the processor in the system used as a timestamp clock source.
    /// If only one timestamp clock source is used, this field is Reserved and populated as 0.
    pub acpi_id: u32,
    /// 64-bit value (nanosecond) describing elapsed time since the most recent deassertion of processor reset.
    pub timestamp: u64,
    /// GUID of the module logging the event
    pub guid: efi::Guid,
    /// Qword of misc data, meaning depends on the ProgressId
    pub qword: u64,
    /// ASCII string describing the module.
    pub string: &'a str,
}

impl<'a> GuidQwordStringEventRecord<'a> {
    /// The defined type ID for this record.
    pub const TYPE: u16 = 0x1014;

    /// The current revision version of this structure.
    pub const REVISION: u8 = 1;

    /// Creates a new `GuidQwordStringEventRecord`.
    pub fn new(
        progress_id: u16,
        acpi_id: u32,
        timestamp: u64,
        guid: efi::Guid,
        qword: u64,
        string: &'a str,
    ) -> (record: Self)
        ensures
            record == (GuidQwordStringEventRecord {
                progress_id,
                acpi_id,
                timestamp,
                guid,
                qword,
                string,
            }),
    {
        Self { progress_id, acpi_id, timestamp, guid, qword, string }
    }
}

impl PerformanceRecord for GuidQwordStringEventRecord<'_> {
    open spec fn type_id(&self) -> u16 {
        Self::TYPE
    }

    open spec fn revision_number(&self) -> u8 {
        Self::REVISION
    }

    open spec fn data(&self) -> Seq<u8> {
        common_data(self.progress_id, self.acpi_id, self.timestamp, self.guid) + le_bytes_u64(
            self.qword,
        ) + terminated(self.string)
    }

    fn record_type(&self) -> (record_type: u16) {
        Self::TYPE
    }

    fn revision(&self) -> (revision: u8) {
        Self::REVISION
    }

    fn data_size(&self) -> (size: usize) {
        size_with_string(COMMON_DATA_SIZE + 9, self.string)
    }

    fn write_data_into(&self, buff: &mut [u8], offset: &mut usize) -> (result: Result<(), Error>) {
        if !fits_with_string(buff, *offset, COMMON_DATA_SIZE + 9, self.string) {
            return Err(Error::Serialization);
        }
        let ghost start = *offset as int;
        let ghost b0 = buff@;
        let ghost common = common_data(self.progress_id, self.acpi_id, self.timestamp, self.guid);
        write_common(buff, offset, self.progress_id, self.acpi_id, self.timestamp, &self.guid)?;
        write_u64_le(buff, offset, self.qword)?;
        proof {
            lemma_overwrite_twice(b0, start, common, le_bytes_u64(self.qword));
        }
        write_terminated(buff, offset, self.string)?;
        proof {
            lemma_overwrite_twice(
                b0,
                start,
                common + le_bytes_u64(self.qword),
                terminated(self.string),
            );
        }
        Ok(())
    }
}

/// The layout of an encoded record of at most `MAX_RECORD_SIZE` bytes: the type in
/// little-endian order, the size of the whole record, the revision, then the data.
pub proof fn lemma_record_layout(record_type: u16, revision: u8, data: Seq<u8>)
    requires
        RECORD_HEADER_SIZE + data.len() <= MAX_RECORD_SIZE,
    ensures
        encoded(record_type, revision, data).len() == RECORD_HEADER_SIZE + data.len(),
        encoded(record_type, revision, data).subrange(0, 2) == le_bytes_u16(record_type),
        encoded(record_type, revision, data)[2] == RECORD_HEADER_SIZE + data.len(),
        encoded(record_type, revision, data)[3] == revision,
        encoded(record_type, revision, data).subrange(
            RECORD_HEADER_SIZE as int,
            RECORD_HEADER_SIZE + data.len(),
        ) == data,
{
    let bytes = encoded(record_type, revision, data);
    assert(bytes.subrange(0, 2) =~= le_bytes_u16(record_type));
    assert(bytes.subrange(RECORD_HEADER_SIZE as int, RECORD_HEADER_SIZE + data.len()) =~= data);
}

/// The layout of the data that every record starts with: the progress identifier, the
/// identifier of the clock source and the timestamp in little-endian order, then the bytes
/// of the GUID.
pub proof fn lemma_common_data_layout(progress_id: u16, acpi_id: u32, timestamp: u64, guid: efi::Guid)
    ensures
        common_data(progress_id, acpi_id, timestamp, guid).len() == COMMON_DATA_SIZE,
        common_data(progress_id, acpi_id, timestamp, guid).subrange(0, 2) == le_bytes_u16(
            progress_id,
        ),
        common_data(progress_id, acpi_id, timestamp, guid).subrange(2, 6) == le_bytes_u32(acpi_id),
        common_data(progress_id, acpi_id, timestamp, guid).subrange(6, 14) == le_bytes_u64(
            timestamp,
        ),
        common_data(progress_id, acpi_id, timestamp, guid).subrange(14, 30) == guid_bytes(guid)@,
{
    let bytes = common_data(progress_id, acpi_id, timestamp, guid);
    assert(bytes.subrange(0, 2) =~= le_bytes_u16(progress_id));
    assert(bytes.subrange(2, 6) =~= le_bytes_u32(acpi_id));
    assert(bytes.subrange(6, 14) =~= le_bytes_u64(timestamp));
    assert(bytes.subrange(14, 30) =~= guid_bytes(guid)@);
}

/// A record of at most `MAX_RECORD_SIZE` bytes that is encoded into a buffer which has
/// just the room for it is encoded: the result is its size, the offset is at the end of
/// the buffer, the bytes before the old offset are as they were and the bytes from the old
/// offset on are the encoding of the record.
pub proof fn lemma_exact_fit<R: PerformanceRecord>(record: &R, buffer: Seq<u8>, offset: usize)
    requires
        RECORD_HEADER_SIZE + record.data().len() <= MAX_RECORD_SIZE,
        buffer.len() == offset + RECORD_HEADER_SIZE + record.data().len(),
    ensures
        ({
            let (result, after, end) = encode_outcome(
                record.type_id(),
                record.revision_number(),
                record.data(),
                buffer,
                offset,
            );
            &&& result == Ok::<usize, Error>((RECORD_HEADER_SIZE + record.data().len()) as usize)
            &&& end == buffer.len()
            &&& after.len() == buffer.len()
            &&& after.subrange(0, offset as int) == buffer.subrange(0, offset as int)
            &&& after.subrange(offset as int, after.len() as int) == encoded(
                record.type_id(),
                record.revision_number(),
                record.data(),
            )
        }),
{
    let bytes = encoded(record.type_id(), record.revision_number(), record.data());
    let after = overwrite(buffer, offset as int, bytes);
    lemma_record_layout(record.type_id(), record.revision_number(), record.data());
    assert(after.subrange(0, offset as int) =~= buffer.subrange(0, offset as int));
    assert(after.subrange(offset as int, after.len() as int) =~= bytes);
}

/// A record of at most `MAX_RECORD_SIZE` bytes that is encoded into a buffer which lacks
/// one byte of the room for it fails with a serialization error and leaves the buffer and
/// the offset as they were, so that encoding it again into any buffer with the room for it
/// succeeds.
pub proof fn lemma_one_byte_short<R: PerformanceRecord>(
    record: &R,
    buffer: Seq<u8>,
    offset: usize,
    larger: Seq<u8>,
)
    requires
        RECORD_HEADER_SIZE + record.data().len() <= MAX_RECORD_SIZE,
        buffer.len() + 1 == offset + RECORD_HEADER_SIZE + record.data().len(),
        larger.len() >= offset + RECORD_HEADER_SIZE + record.data().len(),
    ensures
        encode_outcome(record.type_id(), record.revision_number(), record.data(), buffer, offset)
            == (Err::<usize, Error>(Error::Serialization), buffer, offset as int),
        encode_outcome(record.type_id(), record.revision_number(), record.data(), larger, offset).0
            == Ok::<usize, Error>((RECORD_HEADER_SIZE + record.data().len()) as usize),
{
}

} // verus!
