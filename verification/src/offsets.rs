//! The privileged clock-offset write path.
//!
//! An `OffsetSink` performs the two foreign write calls; its spec-level
//! log records every call made through it, so `apply_offsets` can be held
//! to the write policy: nothing is written without privilege or on
//! malformed input, the core offset is written first, and a rejected core
//! write short-circuits the memory write. `RecordingSink` is a
//! hardware-free sink with scripted statuses and a real call log; the
//! device-backed sink lives with the adapter.

use vstd::prelude::*;
use crate::error::AdapterError;
use crate::parse::{is_offset_text, offset_value, parse_offset};

verus! {

/// Which offset a write call targeted.
#[derive(Clone, Copy, Debug, PartialEq, Eq, Structural)]
pub enum OffsetDomain {
    Core,
    Memory,
}

/// One foreign write call: the offset written and the status the call
/// returned (zero means success).
#[derive(Clone, Copy, Debug, PartialEq, Eq, Structural)]
pub struct WriteRecord {
    pub domain: OffsetDomain,
    pub value: i32,
    pub status: u32,
}

/// A sink for clock-offset writes.
///
/// Every write call is appended to the spec-level log together with the
/// status it returned. Nothing is promised about the statuses: the
/// hardware decides.
pub trait OffsetSink {
    /// Every write call made through this sink, oldest first.
    spec fn log(&self) -> Seq<WriteRecord>;

    /// Write the core (graphics) clock offset; zero status means success.
    fn write_core_offset(&mut self, value: i32) -> (status: u32)
        ensures
            final(self).log() == old(self).log().push(
                (WriteRecord { domain: OffsetDomain::Core, value, status }),
            ),
    ;

    /// Write the memory clock offset; zero status means success.
    fn write_mem_offset(&mut self, value: i32) -> (status: u32)
        ensures
            final(self).log() == old(self).log().push(
                (WriteRecord { domain: OffsetDomain::Memory, value, status }),
            ),
    ;
}

/// A sink that performs no foreign calls: it returns scripted statuses
/// and keeps the call log as a real vector. It stands in for the hardware
/// in tests.
pub struct RecordingSink {
    pub core_status: u32,
    pub mem_status: u32,
    pub calls: Vec<WriteRecord>,
}

impl RecordingSink {
    /// A sink whose core and memory writes return the given statuses.
    pub fn new(core_status: u32, mem_status: u32) -> (s: RecordingSink)
        ensures
            s.core_status == core_status,
            s.mem_status == mem_status,
            s.log() == Seq::<WriteRecord>::empty(),
    {
        let s = RecordingSink { core_status, mem_status, calls: Vec::new() };
        proof {
            assert(s.calls@ =~= Seq::<WriteRecord>::empty());
        }
        s
    }
}

impl OffsetSink for RecordingSink {
    open spec fn log(&self) -> Seq<WriteRecord> {
        self.calls@
    }

    fn write_core_offset(&mut self, value: i32) -> (status: u32) {
        let status = self.core_status;
        self.calls.push(WriteRecord { domain: OffsetDomain::Core, value, status });
        status
    }

    fn write_mem_offset(&mut self, value: i32) -> (status: u32) {
        let status = self.mem_status;
        self.calls.push(WriteRecord { domain: OffsetDomain::Memory, value, status });
        status
    }
}

/// The write sequence that a privileged apply with parsed offsets `core`
/// and `mem` performs, relating the sink log before (`pre`) and after
/// (`post`) to the result `r`. Exactly one of three things happens:
///
/// - the core write is rejected with a non-zero status: it is the only
///   call made, the memory write is never attempted, and the status is
///   reported;
/// - the core write succeeds and the memory write is rejected: both calls
///   appear in order, the core offset stays applied, and the memory
///   write's status is reported;
/// - both writes succeed: both calls appear in order and the apply
///   succeeds.
pub open spec fn write_sequence(
    pre: Seq<WriteRecord>,
    post: Seq<WriteRecord>,
    core: i32,
    mem: i32,
    r: Result<(), AdapterError>,
) -> bool {
    ||| (exists|s: u32|
        s != 0 && post == pre.push(
            (WriteRecord { domain: OffsetDomain::Core, value: core, status: s }),
        ) && r == Result::<(), AdapterError>::Err(AdapterError::HardwareRejected(s)))
    ||| (exists|s: u32|
        s != 0 && post == pre.push(
            (WriteRecord { domain: OffsetDomain::Core, value: core, status: 0 }),
        ).push((WriteRecord { domain: OffsetDomain::Memory, value: mem, status: s }))
            && r == Result::<(), AdapterError>::Err(AdapterError::HardwareRejected(s)))
    ||| (post == pre.push((WriteRecord { domain: OffsetDomain::Core, value: core, status: 0 }))
        .push((WriteRecord { domain: OffsetDomain::Memory, value: mem, status: 0 })) && r
        == Result::<(), AdapterError>::Ok(()))
}

/// In every write sequence the core write comes first and carries the
/// parsed core offset; a memory write is attempted only after a core
/// write whose status was zero, and then carries the parsed memory
/// offset; and no further call is ever made. In particular a rejected
/// core write is the only call of its sequence.
pub proof fn lemma_write_sequence_order(
    pre: Seq<WriteRecord>,
    post: Seq<WriteRecord>,
    core: i32,
    mem: i32,
    r: Result<(), AdapterError>,
)
    requires
        write_sequence(pre, post, core, mem, r),
    ensures
        pre.len() < post.len() <= pre.len() + 2,
        post.subrange(0, pre.len() as int) == pre,
        post[pre.len() as int].domain == OffsetDomain::Core,
        post[pre.len() as int].value == core,
        post.len() == pre.len() + 2 ==> post[pre.len() as int].status == 0,
        post.len() == pre.len() + 2 ==> post[pre.len() as int + 1].domain == OffsetDomain::Memory,
        post.len() == pre.len() + 2 ==> post[pre.len() as int + 1].value == mem,
        post[pre.len() as int].status != 0 ==> post.len() == pre.len() + 1,
        r is Ok <==> post.len() == pre.len() + 2 && post[pre.len() as int + 1].status == 0,
{
    assert(post.subrange(0, pre.len() as int) =~= pre);
}

/// Apply a core/memory clock-offset pair given as text.
///
/// The policy, in order: both inputs must parse as signed 32-bit offsets,
/// else `InvalidOffset` and no call is made; the caller must hold elevated
/// privilege, else `PermissionDenied` and no call is made; then the core
/// offset is written first and the memory offset only after a successful
/// core write, per `write_sequence`. There is no rollback: a memory-write
/// failure leaves the core offset applied.
pub fn apply_offsets<S: OffsetSink>(
    sink: &mut S,
    privileged: bool,
    core_text: &str,
    mem_text: &str,
) -> (r: Result<(), AdapterError>)
    ensures
        r == Result::<(), AdapterError>::Err(AdapterError::InvalidOffset)
            <==> !(is_offset_text(core_text@) && is_offset_text(mem_text@)),
        r == Result::<(), AdapterError>::Err(AdapterError::PermissionDenied)
            <==> is_offset_text(core_text@) && is_offset_text(mem_text@) && !privileged,
        !(is_offset_text(core_text@) && is_offset_text(mem_text@) && privileged)
            ==> final(sink).log() == old(sink).log(),
        is_offset_text(core_text@) && is_offset_text(mem_text@) && privileged
            ==> write_sequence(
                old(sink).log(),
                final(sink).log(),
                offset_value(core_text@) as i32,
                offset_value(mem_text@) as i32,
                r,
            ),
{
    let core = match parse_offset(core_text) {
        Some(v) => v,
        None => {
            return Err(AdapterError::InvalidOffset);
        },
    };
    let mem = match parse_offset(mem_text) {
        Some(v) => v,
        None => {
            return Err(AdapterError::InvalidOffset);
        },
    };
    if !privileged {
        return Err(AdapterError::PermissionDenied);
    }
    let core_status = sink.write_core_offset(core);
    if core_status != 0 {
        return Err(AdapterError::HardwareRejected(core_status));
    }
    let mem_status = sink.write_mem_offset(mem);
    if mem_status != 0 {
        return Err(AdapterError::HardwareRejected(mem_status));
    }
    Ok(())
}

} // verus!
