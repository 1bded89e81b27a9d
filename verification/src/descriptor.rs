//! Descriptor heaps: fixed tables of resource-view slots, handed out one slot
//! at a time and taken back when the view that used a slot is destroyed.

use vstd::prelude::*;
use crate::error::DeviceError;
use crate::RawHandle;

verus! {

/// One slot of a descriptor heap.
///
/// The addresses never change once the handle has been issued. Only handles
/// of a GPU-visible heap carry a GPU address.
#[derive(Clone, Copy, Debug, PartialEq, Eq)]
pub struct Handle {
    pub heap_id: u32,
    pub cpu_address: u64,
    pub gpu_address: Option<u64>,
}

/// Why a handle was not taken back.
#[derive(Clone, Copy, Debug, PartialEq, Eq, Structural)]
pub enum FreeError {
    /// The handle does not name a slot of this heap.
    Foreign,
    /// The slot is not in use: it was freed before, or never handed out.
    NotLive,
}

/// Which slots of a table are in use.
struct SlotTable {
    /// The slots that can be handed out; the last one goes first.
    free: Vec<u32>,
    /// For each slot, whether it is handed out.
    in_use: Vec<bool>,
}

impl SlotTable {
    spec fn capacity(&self) -> int {
        self.in_use@.len() as int
    }

    spec fn live(&self) -> Set<int> {
        Set::new(|s: int| 0 <= s < self.in_use@.len() && self.in_use@[s])
    }

    spec fn wf(&self) -> bool {
        &&& self.in_use@.len() <= u32::MAX
        &&& self.free@.no_duplicates()
        &&& forall|i: int|
            0 <= i < self.free@.len() ==> (#[trigger] self.free@[i]) < self.in_use@.len()
                && !self.in_use@[self.free@[i] as int]
        &&& forall|s: int|
            0 <= s < self.in_use@.len() && !(#[trigger] self.in_use@[s]) ==> self.free@.contains(
                s as u32,
            )
        &&& self.live().finite()
        &&& self.live().len() + self.free@.len() == self.in_use@.len()
    }

    fn new(capacity: u32) -> (t: SlotTable)
        ensures
            t.wf(),
            t.capacity() == capacity,
            t.live() == Set::<int>::empty(),
            t.free@.len() == capacity,
    {
        let mut free: Vec<u32> = Vec::new();
        let mut in_use: Vec<bool> = Vec::new();
        let mut next: u32 = capacity;
        while next > 0
            invariant
                next <= capacity,
                free@.len() == capacity - next,
                in_use@.len() == capacity - next,
                forall|i: int| 0 <= i < free@.len() ==> #[trigger] free@[i] == capacity - 1 - i,
                forall|s: int| 0 <= s < in_use@.len() ==> !#[trigger] in_use@[s],
            decreases next,
        {
            next = next - 1;
            free.push(next);
            in_use.push(false);
        }
        let t = SlotTable { free, in_use };
        proof {
            assert(t.live() =~= Set::<int>::empty());
            assert forall|s: int| 0 <= s < t.in_use@.len() && !(#[trigger] t.in_use@[s]) implies t.free@.contains(
                s as u32,
            ) by {
                assert(t.free@[capacity - 1 - s] == s as u32);
            }
        }
        t
    }

    /// Hands out a free slot, if there is one.
    fn take(&mut self) -> (r: Option<u32>)
        requires
            old(self).wf(),
        ensures
            final(self).wf(),
            final(self).capacity() == old(self).capacity(),
            r is None <==> old(self).free@.len() == 0,
            r is None ==> final(self).live() == old(self).live() && final(self).free@ == old(self).free@,
            r matches Some(s) ==> {
                &&& s < old(self).capacity()
                &&& !old(self).live().contains(s as int)
                &&& final(self).live() == old(self).live().insert(s as int)
                &&& final(self).free@.len() == old(self).free@.len() - 1
            },
    {
        match self.free.pop() {
            None => None,
            Some(s) => {
                self.in_use[s as usize] = true;
                proof {
                    assert(self.live() =~= old(self).live().insert(s as int));
                    assert forall|x: int|
                        0 <= x < self.in_use@.len() && !(#[trigger] self.in_use@[x]) implies self.free@.contains(
                        x as u32,
                    ) by {
                        let j = choose|j: int|
                            0 <= j < old(self).free@.len() && old(self).free@[j] == x as u32;
                        assert(self.free@[j] == x as u32);
                    }
                }
                Some(s)
            },
        }
    }

    /// Takes a slot back. Refuses a slot that is out of range or not in use.
    fn give_back(&mut self, slot: u32) -> (ok: bool)
        requires
            old(self).wf(),
        ensures
            final(self).wf(),
            final(self).capacity() == old(self).capacity(),
            ok == old(self).live().contains(slot as int),
            !ok ==> *final(self) == *old(self),
            ok ==> final(self).live() == old(self).live().remove(slot as int),
            ok ==> final(self).free@.len() == old(self).free@.len() + 1,
    {
        if slot as usize >= self.in_use.len() {
            return false;
        }
        if !self.in_use[slot as usize] {
            return false;
        }
        self.in_use[slot as usize] = false;
        self.free.push(slot);
        proof {
            assert(self.live() =~= old(self).live().remove(slot as int));
            assert forall|x: int|
                0 <= x < self.in_use@.len() && !(#[trigger] self.in_use@[x]) implies self.free@.contains(
                x as u32,
            ) by {
                if x == slot {
                    assert(self.free@[self.free@.len() - 1] == slot);
                } else {
                    let j = choose|j: int|
                        0 <= j < old(self).free@.len() && old(self).free@[j] == x as u32;
                    assert(self.free@[j] == x as u32);
                }
            }
        }
        true
    }

    fn is_live(&self, slot: u32) -> (b: bool)
        requires
            self.wf(),
        ensures
            b == self.live().contains(slot as int),
    {
        (slot as usize) < self.in_use.len() && self.in_use[slot as usize]
    }

    fn free_count(&self) -> (n: u32)
        requires
            self.wf(),
        ensures
            n == self.free@.len(),
            n == self.capacity() - self.live().len(),
    {
        self.free.len() as u32
    }
}

/// A descriptor heap that shaders can read: a fixed number of slots, each at
/// a CPU and a GPU address.
pub struct GeneralHeap {
    raw: RawHandle,
    heap_id: u32,
    start_cpu: u64,
    start_gpu: u64,
    stride: u64,
    slots: SlotTable,
}

impl GeneralHeap {
    /// Number of slots.
    pub closed spec fn spec_capacity(&self) -> int {
        self.slots.capacity()
    }

    /// The native heap object.
    pub closed spec fn spec_raw(&self) -> RawHandle {
        self.raw
    }

    /// The number that the handles of this heap carry.
    pub closed spec fn spec_heap_id(&self) -> u32 {
        self.heap_id
    }

    /// CPU address of the first slot.
    pub closed spec fn spec_start_cpu(&self) -> u64 {
        self.start_cpu
    }

    /// GPU address of the first slot.
    pub closed spec fn spec_start_gpu(&self) -> u64 {
        self.start_gpu
    }

    /// Distance between two slots.
    pub closed spec fn spec_stride(&self) -> u64 {
        self.stride
    }

    /// The slots that are handed out.
    pub closed spec fn live(&self) -> Set<int> {
        self.slots.live()
    }

    /// Number of slots that can still be handed out.
    pub open spec fn spec_free_count(&self) -> int {
        self.spec_capacity() - self.live().len()
    }

    /// The heap's invariant: every slot has an address, and each slot is
    /// either handed out or waiting in the free list, never both.
    pub closed spec fn wf(&self) -> bool {
        &&& self.slots.wf()
        &&& self.stride > 0
        &&& self.start_cpu + self.slots.capacity() * self.stride <= u64::MAX
        &&& self.start_gpu + self.slots.capacity() * self.stride <= u64::MAX
    }

    /// Whether two heaps have the same slots at the same addresses.
    pub open spec fn same_layout(&self, other: &GeneralHeap) -> bool {
        &&& self.spec_raw() == other.spec_raw()
        &&& self.spec_heap_id() == other.spec_heap_id()
        &&& self.spec_capacity() == other.spec_capacity()
        &&& self.spec_start_cpu() == other.spec_start_cpu()
        &&& self.spec_start_gpu() == other.spec_start_gpu()
        &&& self.spec_stride() == other.spec_stride()
    }

    /// The handle of a slot.
    pub open spec fn handle_of(&self, slot: int) -> Handle {
        Handle {
            heap_id: self.spec_heap_id(),
            cpu_address: (self.spec_start_cpu() + slot * self.spec_stride()) as u64,
            gpu_address: Some((self.spec_start_gpu() + slot * self.spec_stride()) as u64),
        }
    }

    /// The slot that a handle names, for a handle of this heap.
    pub open spec fn slot_of(&self, handle: Handle) -> int {
        (handle.cpu_address - self.spec_start_cpu()) / (self.spec_stride() as int)
    }

    /// Whether a handle names a slot of this heap.
    pub open spec fn owns(&self, handle: Handle) -> bool {
        &&& handle.heap_id == self.spec_heap_id()
        &&& handle.cpu_address >= self.spec_start_cpu()
        &&& (handle.cpu_address - self.spec_start_cpu()) % (self.spec_stride() as int) == 0
        &&& self.slot_of(handle) < self.spec_capacity()
        &&& handle.gpu_address == Some(
            (self.spec_start_gpu() + (handle.cpu_address - self.spec_start_cpu())) as u64,
        )
    }

    /// The handle of a slot names that slot, and the handle that names a slot
    /// is that slot's handle.
    pub proof fn lemma_handle_slot(&self, slot: int)
        requires
            self.wf(),
            0 <= slot < self.spec_capacity(),
        ensures
            self.owns(self.handle_of(slot)),
            self.slot_of(self.handle_of(slot)) == slot,
            self.handle_of(slot).cpu_address == self.spec_start_cpu() + slot * self.spec_stride(),
            self.handle_of(slot).gpu_address == Some(
                (self.spec_start_gpu() + slot * self.spec_stride()) as u64,
            ),
            self.spec_start_gpu() + slot * self.spec_stride() <= u64::MAX,
    {
        lemma_slot_address(slot, self.slots.capacity(), self.stride as int);
    }

    /// No more slots are handed out than the heap has, and each of them is a
    /// slot of the heap.
    pub proof fn lemma_live_within_capacity(&self)
        requires
            self.wf(),
        ensures
            self.live().finite(),
            self.live().len() <= self.spec_capacity(),
            forall|s: int| self.live().contains(s) ==> 0 <= s < self.spec_capacity(),
    {
    }

    /// A heap of `capacity` free slots. There is none when the stride is zero
    /// or an address of a slot would not fit in 64 bits.
    pub fn new(
        raw: RawHandle,
        heap_id: u32,
        capacity: u32,
        start_cpu: u64,
        start_gpu: u64,
        stride: u64,
    ) -> (r: Option<GeneralHeap>)
        ensures
            r is Some <==> stride > 0 && start_cpu + capacity * stride <= u64::MAX && start_gpu
                + capacity * stride <= u64::MAX,
            r matches Some(heap) ==> {
                &&& heap.wf()
                &&& heap.spec_raw() == raw
                &&& heap.spec_heap_id() == heap_id
                &&& heap.spec_capacity() == capacity
                &&& heap.spec_start_cpu() == start_cpu
                &&& heap.spec_start_gpu() == start_gpu
                &&& heap.spec_stride() == stride
                &&& heap.live() == Set::<int>::empty()
            },
    {
        if stride == 0 {
            return None;
        }
        let span = match (capacity as u64).checked_mul(stride) {
            Some(span) => span,
            None => {
                return None;
            },
        };
        if span > u64::MAX - start_cpu || span > u64::MAX - start_gpu {
            return None;
        }
        Some(GeneralHeap { raw, heap_id, start_cpu, start_gpu, stride, slots: SlotTable::new(capacity) })
    }

    /// The native heap object.
    #[verifier::when_used_as_spec(spec_raw)]
    pub fn raw(&self) -> (raw: RawHandle)
        ensures
            raw == self.spec_raw(),
    {
        self.raw
    }

    /// Number of slots.
    pub fn capacity(&self) -> (n: u32)
        requires
            self.wf(),
        ensures
            n == self.spec_capacity(),
    {
        self.slots.in_use.len() as u32
    }

    /// Number of slots that can still be handed out.
    pub fn free_count(&self) -> (n: u32)
        requires
            self.wf(),
        ensures
            n == self.spec_free_count(),
    {
        self.slots.free_count()
    }

    /// Number of slots that are handed out.
    pub fn live_count(&self) -> (n: u32)
        requires
            self.wf(),
        ensures
            n == self.live().len(),
            n <= self.spec_capacity(),
    {
        self.capacity() - self.slots.free_count()
    }

    /// Whether a handle names a slot of this heap that is handed out.
    pub fn is_live(&self, handle: Handle) -> (b: bool)
        requires
            self.wf(),
        ensures
            b == (self.owns(handle) && self.live().contains(self.slot_of(handle))),
    {
        match self.find_slot(handle) {
            Some(slot) => self.slots.is_live(slot),
            None => false,
        }
    }

    /// The slot that a handle names, if it names one of this heap.
    fn find_slot(&self, handle: Handle) -> (r: Option<u32>)
        requires
            self.wf(),
        ensures
            r is Some <==> self.owns(handle),
            r matches Some(slot) ==> slot == self.slot_of(handle) && slot < self.spec_capacity(),
    {
        if handle.heap_id != self.heap_id || handle.cpu_address < self.start_cpu {
            return None;
        }
        let off: u64 = handle.cpu_address - self.start_cpu;
        if off % self.stride != 0 {
            return None;
        }
        let slot: u64 = off / self.stride;
        if slot >= self.slots.in_use.len() as u64 {
            return None;
        }
        proof {
            lemma_slot_offset(off as int, self.slots.capacity(), self.stride as int);
        }
        match handle.gpu_address {
            Some(gpu) => {
                if gpu != self.start_gpu + off {
                    return None;
                }
            },
            None => {
                return None;
            },
        }
        Some(slot as u32)
    }

    fn handle_at(&self, slot: u32) -> (handle: Handle)
        requires
            self.wf(),
            slot < self.spec_capacity(),
        ensures
            handle == self.handle_of(slot as int),
    {
        proof {
            lemma_slot_address(slot as int, self.slots.capacity(), self.stride as int);
        }
        let off: u64 = slot as u64 * self.stride;
        Handle {
            heap_id: self.heap_id,
            cpu_address: self.start_cpu + off,
            gpu_address: Some(self.start_gpu + off),
        }
    }

    /// Hands out `count` slots that were free.
    ///
    /// Fails with `OutOfMemory`, and changes nothing, when fewer than `count`
    /// slots are free: the heap cannot grow.
    pub fn allocate(&mut self, count: u32) -> (r: Result<Vec<Handle>, DeviceError>)
        requires
            old(self).wf(),
        ensures
            final(self).wf(),
            final(self).same_layout(old(self)),
            r is Err <==> count > old(self).spec_free_count(),
            r matches Err(e) ==> e == DeviceError::OutOfMemory && final(self).live() == old(self).live(),
            r matches Ok(handles) ==> {
                &&& handles@.len() == count
                &&& forall|i: int|
                    0 <= i < handles@.len() ==> {
                        &&& old(self).owns(#[trigger] handles@[i])
                        &&& !old(self).live().contains(old(self).slot_of(handles@[i]))
                        &&& final(self).live().contains(old(self).slot_of(handles@[i]))
                    }
                &&& forall|i: int, j: int|
                    0 <= i < j < handles@.len() ==> old(self).slot_of(#[trigger] handles@[i])
                        != old(self).slot_of(#[trigger] handles@[j])
                &&& forall|s: int|
                    final(self).live().contains(s) <==> old(self).live().contains(s) || exists|
                        i: int,
                    |
                        0 <= i < handles@.len() && old(self).slot_of(#[trigger] handles@[i]) == s
                &&& final(self).spec_free_count() == old(self).spec_free_count() - count
            },
    {
        if count > self.slots.free_count() {
            return Err(DeviceError::OutOfMemory);
        }
        let mut handles: Vec<Handle> = Vec::new();
        let mut done: u32 = 0;
        while done < count
            invariant
                done <= count,
                self.wf(),
                self.same_layout(old(self)),
                old(self).wf(),
                handles@.len() == done,
                self.slots.free@.len() == old(self).slots.free@.len() - done,
                count <= old(self).slots.free@.len(),
                forall|i: int|
                    0 <= i < handles@.len() ==> {
                        &&& old(self).owns(#[trigger] handles@[i])
                        &&& !old(self).live().contains(old(self).slot_of(handles@[i]))
                        &&& self.live().contains(old(self).slot_of(handles@[i]))
                    },
                forall|i: int, j: int|
                    0 <= i < j < handles@.len() ==> old(self).slot_of(#[trigger] handles@[i])
                        != old(self).slot_of(#[trigger] handles@[j]),
                forall|s: int|
                    self.live().contains(s) <==> old(self).live().contains(s) || exists|i: int|
                        0 <= i < handles@.len() && old(self).slot_of(#[trigger] handles@[i]) == s,
            decreases count - done,
        {
            let ghost earlier = handles@;
            let slot = match self.slots.take() {
                Some(slot) => slot,
                // not reached: fewer slots were asked for than are free
                None => {
                    return Err(DeviceError::OutOfMemory);
                },
            };
            let handle = self.handle_at(slot);
            proof {
                old(self).lemma_handle_slot(slot as int);
            }
            handles.push(handle);
            done = done + 1;
            proof {
                // live are the slots that were live, those handed out
                // earlier, and `slot`
                assert forall|s: int|
                    self.live().contains(s) <==> old(self).live().contains(s) || exists|i: int|
                        0 <= i < handles@.len() && old(self).slot_of(#[trigger] handles@[i]) == s by {
                    if s == slot as int {
                        assert(old(self).slot_of(handles@[done - 1]) == s);
                    } else if self.live().contains(s) && !old(self).live().contains(s) {
                        let i = choose|i: int|
                            0 <= i < earlier.len() && old(self).slot_of(#[trigger] earlier[i]) == s;
                        assert(old(self).slot_of(handles@[i]) == s);
                    }
                }
            }
        }
        Ok(handles)
    }

    /// Takes the slot of a handle back.
    ///
    /// A handle of another heap, and a slot that is not handed out (a second
    /// free of the same handle), are refused and nothing changes.
    pub fn free(&mut self, handle: Handle) -> (r: Result<(), FreeError>)
        requires
            old(self).wf(),
        ensures
            final(self).wf(),
            final(self).same_layout(old(self)),
            r == (if !old(self).owns(handle) {
                Err::<(), FreeError>(FreeError::Foreign)
            } else if !old(self).live().contains(old(self).slot_of(handle)) {
                Err::<(), FreeError>(FreeError::NotLive)
            } else {
                Ok::<(), FreeError>(())
            }),
            r is Err ==> final(self).live() == old(self).live(),
            r is Ok ==> final(self).live() == old(self).live().remove(old(self).slot_of(handle)),
    {
        let slot = match self.find_slot(handle) {
            Some(slot) => slot,
            None => {
                return Err(FreeError::Foreign);
            },
        };
        if self.slots.give_back(slot) {
            Ok(())
        } else {
            Err(FreeError::NotLive)
        }
    }
}

/// A descriptor heap that only the CPU reads, used to stage views before
/// they are copied into a GPU-visible heap: a fixed number of slots, each at
/// a CPU address.
///
/// The pool is not synchronised. Threads that share one keep it behind a
/// lock that they hold for the length of one call.
pub struct CpuPool {
    heap_id: u32,
    start_cpu: u64,
    stride: u64,
    slots: SlotTable,
}

impl CpuPool {
    /// Number of slots.
    pub closed spec fn spec_capacity(&self) -> int {
        self.slots.capacity()
    }

    /// The number that the handles of this pool carry.
    pub closed spec fn spec_heap_id(&self) -> u32 {
        self.heap_id
    }

    /// CPU address of the first slot.
    pub closed spec fn spec_start_cpu(&self) -> u64 {
        self.start_cpu
    }

    /// Distance between two slots.
    pub closed spec fn spec_stride(&self) -> u64 {
        self.stride
    }

    /// The slots that are handed out.
    pub closed spec fn live(&self) -> Set<int> {
        self.slots.live()
    }

    /// Number of slots that can still be handed out.
    pub open spec fn spec_free_count(&self) -> int {
        self.spec_capacity() - self.live().len()
    }

    /// The pool's invariant: every slot has an address, and each slot is
    /// either handed out or waiting in the free list, never both.
    pub closed spec fn wf(&self) -> bool {
        &&& self.slots.wf()
        &&& self.stride > 0
        &&& self.start_cpu + self.slots.capacity() * self.stride <= u64::MAX
    }

    /// Whether two pools have the same slots at the same addresses.
    pub open spec fn same_layout(&self, other: &CpuPool) -> bool {
        &&& self.spec_heap_id() == other.spec_heap_id()
        &&& self.spec_capacity() == other.spec_capacity()
        &&& self.spec_start_cpu() == other.spec_start_cpu()
        &&& self.spec_stride() == other.spec_stride()
    }

    /// The handle of a slot.
    pub open spec fn handle_of(&self, slot: int) -> Handle {
        Handle {
            heap_id: self.spec_heap_id(),
            cpu_address: (self.spec_start_cpu() + slot * self.spec_stride()) as u64,
            gpu_address: None,
        }
    }

    /// The slot that a handle names, for a handle of this pool.
    pub open spec fn slot_of(&self, handle: Handle) -> int {
        (handle.cpu_address - self.spec_start_cpu()) / (self.spec_stride() as int)
    }

    /// Whether a handle names a slot of this pool.
    pub open spec fn owns(&self, handle: Handle) -> bool {
        &&& handle.heap_id == self.spec_heap_id()
        &&& handle.cpu_address >= self.spec_start_cpu()
        &&& (handle.cpu_address - self.spec_start_cpu()) % (self.spec_stride() as int) == 0
        &&& self.slot_of(handle) < self.spec_capacity()
        &&& handle.gpu_address is None
    }

    /// The handle of a slot names that slot.
    pub proof fn lemma_handle_slot(&self, slot: int)
        requires
            self.wf(),
            0 <= slot < self.spec_capacity(),
        ensures
            self.owns(self.handle_of(slot)),
            self.slot_of(self.handle_of(slot)) == slot,
            self.handle_of(slot).cpu_address == self.spec_start_cpu() + slot * self.spec_stride(),
    {
        lemma_slot_address(slot, self.slots.capacity(), self.stride as int);
    }

    /// No more slots are handed out than the pool has, and each of them is a
    /// slot of the pool.
    pub proof fn lemma_live_within_capacity(&self)
        requires
            self.wf(),
        ensures
            self.live().finite(),
            self.live().len() <= self.spec_capacity(),
            forall|s: int| self.live().contains(s) ==> 0 <= s < self.spec_capacity(),
    {
    }

    /// A pool of `capacity` free slots. There is none when the stride is zero
    /// or an address of a slot would not fit in 64 bits.
    pub fn new(heap_id: u32, capacity: u32, start_cpu: u64, stride: u64) -> (r: Option<CpuPool>)
        ensures
            r is Some <==> stride > 0 && start_cpu + capacity * stride <= u64::MAX,
            r matches Some(pool) ==> {
                &&& pool.wf()
                &&& pool.spec_heap_id() == heap_id
                &&& pool.spec_capacity() == capacity
                &&& pool.spec_start_cpu() == start_cpu
                &&& pool.spec_stride() == stride
                &&& pool.live() == Set::<int>::empty()
            },
    {
        if stride == 0 {
            return None;
        }
        let span = match (capacity as u64).checked_mul(stride) {
            Some(span) => span,
            None => {
                return None;
            },
        };
        if span > u64::MAX - start_cpu {
            return None;
        }
        Some(CpuPool { heap_id, start_cpu, stride, slots: SlotTable::new(capacity) })
    }

    /// Number of slots.
    pub fn capacity(&self) -> (n: u32)
        requires
            self.wf(),
        ensures
            n == self.spec_capacity(),
    {
        self.slots.in_use.len() as u32
    }

    /// Number of slots that can still be handed out.
    pub fn free_count(&self) -> (n: u32)
        requires
            self.wf(),
        ensures
            n == self.spec_free_count(),
    {
        self.slots.free_count()
    }

    /// Number of slots that are handed out.
    pub fn live_count(&self) -> (n: u32)
        requires
            self.wf(),
        ensures
            n == self.live().len(),
            n <= self.spec_capacity(),
    {
        self.capacity() - self.slots.free_count()
    }

    /// Whether a handle names a slot of this pool that is handed out.
    pub fn is_live(&self, handle: Handle) -> (b: bool)
        requires
            self.wf(),
        ensures
            b == (self.owns(handle) && self.live().contains(self.slot_of(handle))),
    {
        match self.find_slot(handle) {
            Some(slot) => self.slots.is_live(slot),
            None => false,
        }
    }

    /// The slot that a handle names, if it names one of this pool.
    fn find_slot(&self, handle: Handle) -> (r: Option<u32>)
        requires
            self.wf(),
        ensures
            r is Some <==> self.owns(handle),
            r matches Some(slot) ==> slot == self.slot_of(handle) && slot < self.spec_capacity(),
    {
        if handle.heap_id != self.heap_id || handle.cpu_address < self.start_cpu {
            return None;
        }
        if handle.gpu_address.is_some() {
            return None;
        }
        let off: u64 = handle.cpu_address - self.start_cpu;
        if off % self.stride != 0 {
            return None;
        }
        let slot: u64 = off / self.stride;
        if slot >= self.slots.in_use.len() as u64 {
            return None;
        }
        Some(slot as u32)
    }

    /// Hands out one slot that was free.
    ///
    /// Fails with `OutOfMemory`, and changes nothing, when no slot is free.
    pub fn alloc_handle(&mut self) -> (r: Result<Handle, DeviceError>)
        requires
            old(self).wf(),
        ensures
            final(self).wf(),
            final(self).same_layout(old(self)),
            r is Err <==> old(self).spec_free_count() == 0,
            r matches Err(e) ==> e == DeviceError::OutOfMemory && final(self).live() == old(self).live(),
            r matches Ok(handle) ==> {
                &&& old(self).owns(handle)
                &&& !old(self).live().contains(old(self).slot_of(handle))
                &&& final(self).live() == old(self).live().insert(old(self).slot_of(handle))
            },
    {
        match self.slots.take() {
            None => Err(DeviceError::OutOfMemory),
            Some(slot) => {
                proof {
                    old(self).lemma_handle_slot(slot as int);
                    lemma_slot_address(slot as int, self.slots.capacity(), self.stride as int);
                }
                let off: u64 = slot as u64 * self.stride;
                Ok(Handle { heap_id: self.heap_id, cpu_address: self.start_cpu + off, gpu_address: None })
            },
        }
    }

    /// Takes the slot of a handle back.
    ///
    /// A handle of another heap, and a slot that is not handed out (a second
    /// free of the same handle), are refused and nothing changes.
    pub fn free_handle(&mut self, handle: Handle) -> (r: Result<(), FreeError>)
        requires
            old(self).wf(),
        ensures
            final(self).wf(),
            final(self).same_layout(old(self)),
            r == (if !old(self).owns(handle) {
                Err::<(), FreeError>(FreeError::Foreign)
            } else if !old(self).live().contains(old(self).slot_of(handle)) {
                Err::<(), FreeError>(FreeError::NotLive)
            } else {
                Ok::<(), FreeError>(())
            }),
            r is Err ==> final(self).live() == old(self).live(),
            r is Ok ==> final(self).live() == old(self).live().remove(old(self).slot_of(handle)),
    {
        let slot = match self.find_slot(handle) {
            Some(slot) => slot,
            None => {
                return Err(FreeError::Foreign);
            },
        };
        if self.slots.give_back(slot) {
            Ok(())
        } else {
            Err(FreeError::NotLive)
        }
    }
}

/// Within a table of `capacity` slots whose last address fits, the address
/// offset of a slot fits too, and dividing it by the stride gives the slot.
proof fn lemma_slot_address(slot: int, capacity: int, stride: int)
    requires
        0 <= slot < capacity,
        stride > 0,
    ensures
        0 <= slot * stride <= capacity * stride,
        (slot * stride) % stride == 0,
        (slot * stride) / stride == slot,
{
    assert(0 <= slot * stride <= capacity * stride) by (nonlinear_arith)
        requires
            0 <= slot < capacity,
            stride > 0,
    ;
    vstd::arithmetic::div_mod::lemma_fundamental_div_mod_converse(slot * stride, stride, slot, 0);
}

/// An offset that is a multiple of the stride is the slot times the stride.
proof fn lemma_slot_offset(off: int, capacity: int, stride: int)
    requires
        0 <= off,
        stride > 0,
        off % stride == 0,
        off / stride < capacity,
    ensures
        off == (off / stride) * stride,
        off <= capacity * stride,
{
    assert(off == stride * (off / stride) + off % stride) by (nonlinear_arith)
        requires
            stride > 0,
    ;
    assert((off / stride) * stride <= capacity * stride) by (nonlinear_arith)
        requires
            off / stride < capacity,
            stride > 0,
    ;
}

} // verus!
