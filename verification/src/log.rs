//! The execution log record and its conversion for a foreign runtime.
//!
//! The address and the topics are small and of fixed size: they are copied
//! into buffers of the runtime's binding. The data is of any length: it is
//! never copied again, but wrapped in a handoff that shows it to the runtime
//! in place.

use crate::handoff::{created, BorrowedBufferHandoff, HandoffState};
use napi::bindgen_prelude::Buffer;
use vstd::prelude::*;

verus! {

/// `napi::bindgen_prelude::Buffer`, the binding's owned byte buffer. It is
/// opaque here: contracts speak of what it holds through [`buffer_bytes`].
#[verifier::external_type_specification]
#[verifier::external_body]
pub struct ExBuffer(napi::bindgen_prelude::Buffer);

/// The bytes that a `Buffer` holds, first to last. Nothing defines it here:
/// all that is known of it is what the contract of `buffer_from_slice` says.
pub uninterp spec fn buffer_bytes(buffer: Buffer) -> Seq<u8>;

/// `Buffer::from(&[u8])`: copies the slice into a vector of its own and takes
/// that vector over as it is, so the buffer holds the bytes of the slice, in
/// order. Not proved here.
#[verifier::external_body]
fn buffer_from_slice(bytes: &[u8]) -> (buffer: Buffer)
    ensures
        buffer_bytes(buffer) == bytes@,
{
    Buffer::from(bytes)
}

/// An execution log as the virtual machine emits it.
#[derive(Debug)]
pub struct Log {
    pub address: [u8; 20],
    pub topics: Vec<[u8; 32]>,
    pub data: Vec<u8>,
}

/// What a [`Log`] holds.
pub struct LogContent {
    pub address: Seq<u8>,
    pub topics: Seq<Seq<u8>>,
    pub data: Seq<u8>,
}

impl View for Log {
    type V = LogContent;

    open spec fn view(&self) -> LogContent {
        LogContent {
            address: self.address@,
            topics: Seq::new(self.topics@.len(), |i: int| self.topics@[i]@),
            data: self.data@,
        }
    }
}

/// Ethereum execution log.
pub struct ExecutionLog {
    pub address: Buffer,
    pub topics: Vec<Buffer>,
    pub data: BorrowedBufferHandoff,
}

/// What an [`ExecutionLog`] holds.
pub struct ExecutionLogContent {
    pub address: Seq<u8>,
    pub topics: Seq<Seq<u8>>,
    pub data: HandoffState,
}

impl View for ExecutionLog {
    type V = ExecutionLogContent;

    open spec fn view(&self) -> ExecutionLogContent {
        ExecutionLogContent {
            address: buffer_bytes(self.address),
            topics: Seq::new(self.topics@.len(), |i: int| buffer_bytes(self.topics@[i])),
            data: self.data@,
        }
    }
}

/// The record that a log converts to: the same address and topics, and a
/// fresh handoff over the same data.
pub open spec fn converted(log: LogContent) -> ExecutionLogContent {
    ExecutionLogContent { address: log.address, topics: log.topics, data: created(log.data) }
}

impl ExecutionLog {
    /// Converts `log` for the foreign runtime. The handoff of its data is
    /// pending: the view is yet to be registered with the runtime.
    pub fn new(log: &Log) -> (record: ExecutionLog)
        ensures
            record@ == converted(log@),
            record@.address.len() == 20,
            forall|i: int| 0 <= i < record@.topics.len() ==> (#[trigger] record@.topics[i]).len() == 32,
    {
        let mut topics: Vec<Buffer> = Vec::new();
        let mut i: usize = 0;
        while i < log.topics.len()
            invariant
                i <= log.topics@.len(),
                topics@.len() == i,
                forall|j: int| 0 <= j < i ==> buffer_bytes(#[trigger] topics@[j]) == log.topics@[j]@,
            decreases log.topics@.len() - i,
        {
            topics.push(buffer_from_slice(log.topics[i].as_slice()));
            i += 1;
        }
        let data = log.data.clone();
        let record = ExecutionLog {
            address: buffer_from_slice(log.address.as_slice()),
            topics,
            data: BorrowedBufferHandoff::create(data),
        };
        assert(record@.topics =~= log@.topics);
        record
    }
}

} // verus!
