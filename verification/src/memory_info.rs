//! Memory-info descriptors: an allocator's device and arena affinity,
//! wrapped with release bookkeeping.

use vstd::prelude::*;

use crate::error::OrsError;
use crate::status::spec_reply_ok;
use crate::status::spec_reply_release_delta;
use crate::status::spec_check;
use crate::status::CallReply;
use crate::status::ReleaseProbe;
use crate::status::check_status;

verus! {

/// Which kind of allocator a memory-info descriptor is for.
#[derive(Clone, Copy, Debug, PartialEq, Eq, Structural)]
pub enum OrtAllocatorType {
    DeviceAllocator,
    ArenaAllocator,
}

/// The tag value the native ABI uses for each allocator type.
pub open spec fn spec_allocator_type_to_raw(t: OrtAllocatorType) -> i32 {
    match t {
        OrtAllocatorType::DeviceAllocator => 0,
        OrtAllocatorType::ArenaAllocator => 1,
    }
}

impl OrtAllocatorType {
    /// The tag value passed across the native ABI for this allocator type.
    pub fn to_raw(self) -> (raw: i32)
        ensures
            raw == spec_allocator_type_to_raw(self),
    {
        match self {
            OrtAllocatorType::DeviceAllocator => 0,
            OrtAllocatorType::ArenaAllocator => 1,
        }
    }
}

/// Which kind of memory a descriptor refers to.
#[derive(Clone, Copy, Debug, PartialEq, Eq, Structural)]
pub enum OrtMemType {
    /// Temporary CPU-accessible input memory of a non-CPU execution
    /// provider.
    CpuInput,
    /// CPU-accessible output memory of a non-CPU execution provider.
    CpuOutput,
    /// The default memory of the executing device.
    Default,
}

/// The tag value the native ABI uses for each memory type.
pub open spec fn spec_mem_type_to_raw(t: OrtMemType) -> i32 {
    match t {
        OrtMemType::CpuInput => -2i32,
        OrtMemType::CpuOutput => -1i32,
        OrtMemType::Default => 0i32,
    }
}

impl OrtMemType {
    /// The tag value passed across the native ABI for this memory type.
    pub fn to_raw(self) -> (raw: i32)
        ensures
            raw == spec_mem_type_to_raw(self),
    {
        match self {
            OrtMemType::CpuInput => -2,
            OrtMemType::CpuOutput => -1,
            OrtMemType::Default => 0,
        }
    }
}

/// An owned memory-info descriptor: the native handle and the allocator
/// and memory affinity it was created with.  A zero pointer means the
/// handle has been released (or never existed); releasing it again is a
/// safe no-op.
#[derive(Debug)]
pub struct MemoryInfo {
    pub ptr: usize,
    pub allocator_type: OrtAllocatorType,
    pub memory_type: OrtMemType,
}

impl MemoryInfo {
    /// Wrap a raw native memory-info handle, or zero for an already-null
    /// descriptor, taking the default CPU affinity.
    pub fn from_raw(ptr: usize) -> (m: MemoryInfo)
        ensures
            m.ptr == ptr,
            m.allocator_type == OrtAllocatorType::DeviceAllocator,
            m.memory_type == OrtMemType::Default,
    {
        MemoryInfo {
            ptr,
            allocator_type: OrtAllocatorType::DeviceAllocator,
            memory_type: OrtMemType::Default,
        }
    }

    /// Adopt the reply of the native CPU memory-info construction the
    /// embedder performed for the given allocator and memory type.  On
    /// success the returned descriptor owns the handle; on failure the
    /// status is translated and released.
    pub fn new(
        allocator_type: OrtAllocatorType,
        memory_type: OrtMemType,
        reply: CallReply,
        probe: &mut ReleaseProbe,
    ) -> (r: Result<MemoryInfo, OrsError>)
        requires
            old(probe).count < u64::MAX,
        ensures
            final(probe).count == old(probe).count + spec_reply_release_delta(reply),
            r is Ok <==> spec_reply_ok(reply),
            r matches Ok(m) ==> m == (MemoryInfo {
                ptr: reply.handle,
                allocator_type,
                memory_type,
            }),
            r matches Err(e) ==> Result::<(), OrsError>::Err(e) == spec_check(reply.status),
    {
        match check_status(reply.status, probe) {
            Result::Ok(()) => Result::Ok(MemoryInfo { ptr: reply.handle, allocator_type, memory_type }),
            Result::Err(e) => Result::Err(e),
        }
    }

    /// What releasing a descriptor leaves behind: the handle nulled, the
    /// recorded affinity kept.
    pub open spec fn spec_released(self) -> MemoryInfo {
        MemoryInfo { ptr: 0, ..self }
    }

    /// How many native releases dropping this descriptor performs: one for
    /// a live handle, none for an already-null one.
    pub open spec fn spec_release_delta(self) -> nat {
        if self.ptr != 0 {
            1
        } else {
            0
        }
    }

    /// Release the native handle.  A live handle is freed exactly once; a
    /// null handle is left alone — dropping twice is safe and performs no
    /// second native call.
    pub fn release(&mut self, probe: &mut ReleaseProbe)
        requires
            old(probe).count < u64::MAX,
        ensures
            *final(self) == old(self).spec_released(),
            final(probe).count == old(probe).count + old(self).spec_release_delta(),
    {
        if self.ptr != 0 {
            probe.count = probe.count + 1;
        }
        self.ptr = 0;
    }
}

/// Double-free safety: a released descriptor is null, and releasing it
/// again changes nothing and performs no native call.
pub proof fn lemma_memory_info_release_idempotent(m: MemoryInfo)
    ensures
        m.spec_released().spec_release_delta() == 0,
        m.spec_released().spec_released() == m.spec_released(),
{
}

} // verus!
