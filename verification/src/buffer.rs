//! A fixed-capacity, append-only store of encoded performance records.
//!
//! The buffer works in memory that its owner hands in: it allocates nothing, and its
//! capacity is the length of that memory.

use crate::error::Error;
use crate::record::{
    encoded, lemma_record_layout, saturated, PerformanceRecord, COMMON_DATA_SIZE, MAX_RECORD_SIZE,
    RECORD_HEADER_SIZE,
};
use vstd::prelude::*;

verus! {

/// The smallest capacity of a record buffer: the size of the smallest record.
pub const MIN_BUFFER_SIZE: usize = RECORD_HEADER_SIZE + COMMON_DATA_SIZE;

/// The bytes of the records `records`, one behind the other.
pub open spec fn concat(records: Seq<Seq<u8>>) -> Seq<u8>
    decreases records.len(),
{
    if records.len() == 0 {
        Seq::empty()
    } else {
        concat(records.drop_last()) + records.last()
    }
}

/// What appending a record with the encoding `bytes` to a buffer of `capacity` bytes that
/// holds `records` returns, and the records that the buffer holds afterwards. A record of
/// more than `MAX_RECORD_SIZE` bytes is refused; so is one for which the buffer has no
/// room left. A refused record leaves the buffer as it was.
pub open spec fn append_outcome(records: Seq<Seq<u8>>, capacity: nat, bytes: Seq<u8>) -> (
    Result<(), Error>,
    Seq<Seq<u8>>,
) {
    if bytes.len() > MAX_RECORD_SIZE {
        (Err(Error::RecordTooLarge { size: saturated(bytes.len() as int) }), records)
    } else if concat(records).len() + bytes.len() > capacity {
        (Err(Error::OutOfResources), records)
    } else {
        (Ok(()), records.push(bytes))
    }
}

/// A fixed-capacity, append-only store of encoded performance records.
pub struct RecordBuffer {
    bytes: Vec<u8>,
    used: usize,
    count: usize,
    records: Ghost<Seq<Seq<u8>>>,
}

impl RecordBuffer {
    /// Whether the buffer is in order: the bytes in use are the bytes of its records.
    pub closed spec fn wf(&self) -> bool {
        &&& self.used <= self.bytes@.len()
        &&& self.bytes@.subrange(0, self.used as int) == concat(self.records@)
        &&& self.count == self.records@.len()
        &&& self.count <= self.used
    }

    /// The encoded records that the buffer holds, oldest first.
    pub closed spec fn records(&self) -> Seq<Seq<u8>> {
        self.records@
    }

    /// The number of bytes that the buffer can hold.
    pub closed spec fn spec_capacity(&self) -> nat {
        self.bytes@.len()
    }

    /// The records of a buffer that is in order fit into the buffer.
    pub proof fn lemma_records_fit(&self)
        requires
            self.wf(),
        ensures
            concat(self.records()).len() <= self.spec_capacity(),
            self.records().len() <= concat(self.records()).len(),
    {
    }

    /// Creates an empty buffer in the memory `memory`, whose length is the capacity of the
    /// buffer. Memory that cannot hold even the smallest record is refused.
    pub fn new(memory: Vec<u8>) -> (result: Result<Self, Error>)
        ensures
            memory@.len() < MIN_BUFFER_SIZE ==> result matches Err(Error::BufferTooSmall),
            memory@.len() >= MIN_BUFFER_SIZE ==> result is Ok && result.unwrap().wf()
                && result.unwrap().records() == Seq::<Seq<u8>>::empty()
                && result.unwrap().spec_capacity() == memory@.len(),
    {
        if memory.len() < MIN_BUFFER_SIZE {
            return Err(Error::BufferTooSmall);
        }
        assert(memory@.subrange(0, 0) =~= concat(Seq::<Seq<u8>>::empty()));
        Ok(RecordBuffer { bytes: memory, used: 0, count: 0, records: Ghost(Seq::empty()) })
    }

    /// Returns the number of bytes that the buffer can hold.
    pub fn capacity(&self) -> (capacity: usize)
        ensures
            capacity == self.spec_capacity(),
    {
        self.bytes.len()
    }

    /// Returns the number of bytes that the records in the buffer take.
    pub fn len(&self) -> (len: usize)
        requires
            self.wf(),
        ensures
            len == concat(self.records()).len(),
    {
        self.used
    }

    /// Returns the number of records in the buffer.
    pub fn record_count(&self) -> (count: usize)
        requires
            self.wf(),
        ensures
            count == self.records().len(),
    {
        self.count
    }

    /// Returns the bytes of the records in the buffer, one record behind the other.
    pub fn as_bytes(&self) -> (bytes: &[u8])
        requires
            self.wf(),
        ensures
            bytes@ == concat(self.records()),
    {
        vstd::slice::slice_subrange(self.bytes.as_slice(), 0, self.used)
    }

    /// Appends the encoding of `record` to the buffer.
    pub fn add_record<R: PerformanceRecord>(&mut self, record: &R) -> (result: Result<(), Error>)
        requires
            old(self).wf(),
        ensures
            final(self).wf(),
            (result, final(self).records()) == append_outcome(
                old(self).records(),
                old(self).spec_capacity(),
                encoded(record.type_id(), record.revision_number(), record.data()),
            ),
            final(self).spec_capacity() == old(self).spec_capacity(),
    {
        let ghost before = self.bytes@;
        let ghost bytes = encoded(record.type_id(), record.revision_number(), record.data());
        let mut offset = self.used;
        let written = record.write_into(self.bytes.as_mut_slice(), &mut offset);
        match written {
            Ok(_) => {
                proof {
                    lemma_record_layout(record.type_id(), record.revision_number(), record.data());
                }
                self.used = offset;
                self.count = self.count + 1;
                self.records = Ghost(self.records@.push(bytes));
                proof {
                    assert(self.records@.drop_last() =~= old(self).records@);
                    assert(self.bytes@.subrange(0, self.used as int) =~= before.subrange(
                        0,
                        old(self).used as int,
                    ) + bytes);
                }
                Ok(())
            },
            Err(Error::Serialization) => Err(Error::OutOfResources),
            Err(error) => Err(error),
        }
    }
}

} // verus!
