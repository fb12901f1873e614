//! Processes as the kernel sees them: identifiers, upcall descriptors, the
//! queue of pending upcalls, the memory a process exposes to the kernel, and
//! references into that memory.
use vstd::prelude::*;
use crate::queue::RingBuffer;
use core::marker::PhantomData;

verus! {

/// Identifies a process by its index in the process table.
#[derive(Clone, Copy, PartialEq, Eq, Structural, Debug)]
pub struct AppId {
    pub index: usize,
}

impl AppId {
    /// The process at table index `idx`.
    pub fn new(idx: usize) -> (a: AppId)
        ensures
            a.index == idx,
    {
        AppId { index: idx }
    }

    /// Index of the process in the process table.
    pub fn idx(&self) -> (i: usize)
        ensures
            i == self.index,
    {
        self.index
    }
}

/// An upcall that has been scheduled on a process: the function to run and
/// the four argument registers it starts with.
#[derive(Clone, Copy, PartialEq, Eq, Structural, Debug)]
pub struct ScheduledCall {
    pub pc: usize,
    pub r0: usize,
    pub r1: usize,
    pub r2: usize,
    pub r3: usize,
}

/// An upcall scheduled on process `app`.
#[derive(Clone, Copy, PartialEq, Eq, Structural, Debug)]
pub struct Upcall {
    pub app: AppId,
    pub call: ScheduledCall,
}

/// An upcall a process registered with a driver: which process, the
/// process's own datum, and the address of the function to call.
#[derive(Clone, Copy, PartialEq, Eq, Structural, Debug)]
pub struct Callback {
    pub app_id: AppId,
    pub appdata: usize,
    pub fn_ptr: usize,
}

/// The upcall `c` fired with the values `r0`, `r1`, `r2`.
pub open spec fn upcall_of(c: Callback, r0: usize, r1: usize, r2: usize) -> Upcall {
    Upcall { app: c.app_id, call: ScheduledCall { pc: c.fn_ptr, r0, r1, r2, r3: c.appdata } }
}

impl Callback {
    /// An upcall into process `appid` at `fn_ptr`, passing `appdata` back.
    pub fn new(appid: AppId, appdata: usize, fn_ptr: usize) -> (c: Callback)
        ensures
            c.app_id == appid,
            c.appdata == appdata,
            c.fn_ptr == fn_ptr,
    {
        Callback { app_id: appid, appdata, fn_ptr }
    }

    /// The process the upcall goes to.
    pub fn app_id(&self) -> (a: AppId)
        ensures
            a == self.app_id,
    {
        self.app_id
    }

    /// The call to queue on the process when a driver fires this upcall with
    /// the three values `r0`, `r1`, `r2`; the process's datum comes fourth.
    pub fn schedule(&self, r0: usize, r1: usize, r2: usize) -> (u: Upcall)
        ensures
            u == upcall_of(*self, r0, r1, r2),
    {
        Upcall { app: self.app_id, call: ScheduledCall { pc: self.fn_ptr, r0, r1, r2, r3: self.appdata } }
    }
}

/// Scheduling state of a process.
#[derive(Clone, Copy, PartialEq, Eq, Structural, Debug)]
pub enum State {
    /// The process runs (or resumes) where it stopped.
    Running,
    /// The process waits for an upcall.
    Waiting,
}

/// The kernel's record of a process.
pub struct Process {
    /// Whether the process runs or waits.
    pub state: State,
    /// Upcalls scheduled on the process and not yet delivered.
    pub callbacks: RingBuffer<ScheduledCall>,
    /// First address of the memory the process may share with drivers.
    pub exposed_start: usize,
    /// End (exclusive) of the process's memory.
    pub memory_end: usize,
}

/// The range `[start, start + size)` lies inside `[lo, hi)`.
pub open spec fn range_within(start: int, size: int, lo: int, hi: int) -> bool {
    lo <= start && start + size <= hi
}

impl Process {
    /// The record is consistent.
    pub open spec fn wf(&self) -> bool {
        self.callbacks.wf()
    }

    /// A process in state `Running` with no upcalls pending, which exposes
    /// `[exposed_start, memory_end)` and can hold `max_callbacks` pending
    /// upcalls.
    pub fn create(exposed_start: usize, memory_end: usize, max_callbacks: usize) -> (p: Process)
        requires
            max_callbacks > 0,
        ensures
            p.wf(),
            p.state == State::Running,
            p.callbacks@ == Seq::<ScheduledCall>::empty(),
            p.callbacks.capacity() == max_callbacks,
            p.exposed_start == exposed_start,
            p.memory_end == memory_end,
    {
        Process {
            state: State::Running,
            callbacks: RingBuffer::new(max_callbacks),
            exposed_start,
            memory_end,
        }
    }

    /// Whether the buffer of `size` bytes at `start` lies wholly in the
    /// memory the process exposes.
    pub fn in_exposed_bounds(&self, start: usize, size: usize) -> (b: bool)
        ensures
            b == range_within(start as int, size as int, self.exposed_start as int, self.memory_end as int),
    {
        if start < self.exposed_start {
            return false;
        }
        if start > self.memory_end {
            return false;
        }
        size <= self.memory_end - start
    }

    /// Queues an upcall on the process. Returns false, and changes nothing,
    /// when the queue is full.
    pub fn schedule(&mut self, call: ScheduledCall) -> (ok: bool)
        requires
            old(self).wf(),
        ensures
            final(self).wf(),
            final(self).state == old(self).state,
            final(self).exposed_start == old(self).exposed_start,
            final(self).memory_end == old(self).memory_end,
            final(self).callbacks.capacity() == old(self).callbacks.capacity(),
            ok == (old(self).callbacks@.len() < old(self).callbacks.capacity()),
            ok ==> final(self).callbacks@ == old(self).callbacks@.push(call),
            !ok ==> final(self).callbacks@ == old(self).callbacks@,
    {
        self.callbacks.enqueue(call)
    }
}

/// Marks a reference into process memory that the kernel holds privately.
pub struct Private;

/// Marks a reference into process memory that is shared with the process.
pub struct Shared;

/// A reference to a value of type `T` in the memory of a process.
pub struct AppPtr<L, T> {
    /// Address of the value.
    pub addr: usize,
    /// The process that owns the memory.
    pub process: AppId,
    /// Carries the access mark `L` and the value type `T`.
    pub marker: PhantomData<(L, T)>,
}

impl<L, T> AppPtr<L, T> {
    /// A reference to the value at `addr` in the memory of `appid`.
    pub fn new(addr: usize, appid: AppId) -> (p: AppPtr<L, T>)
        ensures
            p.addr == addr,
            p.process == appid,
    {
        AppPtr { addr, process: appid, marker: PhantomData }
    }
}

/// A buffer of `len` values of type `T` in the memory of a process.
pub struct AppSlice<L, T> {
    pub ptr: AppPtr<L, T>,
    pub len: usize,
}

impl<L, T> AppSlice<L, T> {
    /// The buffer of `len` values at `addr` in the memory of `appid`.
    pub fn new(addr: usize, len: usize, appid: AppId) -> (s: AppSlice<L, T>)
        ensures
            s.ptr.addr == addr,
            s.ptr.process == appid,
            s.len == len,
    {
        AppSlice { ptr: AppPtr::new(addr, appid), len }
    }

    /// Number of values in the buffer.
    pub fn len(&self) -> (n: usize)
        ensures
            n == self.len,
    {
        self.len
    }
}

/// Law: a buffer of at least one byte lies in `[lo, hi)` exactly when its
/// first and its last byte do; an empty buffer does when its address lies in
/// `[lo, hi]`.
pub proof fn lemma_range_within(start: int, size: int, lo: int, hi: int)
    requires
        size >= 0,
    ensures
        size > 0 ==> (range_within(start, size, lo, hi) <==> (lo <= start < hi && lo <= start + size - 1 < hi)),
        size == 0 ==> (range_within(start, size, lo, hi) <==> lo <= start <= hi),
{
}

} // verus!
