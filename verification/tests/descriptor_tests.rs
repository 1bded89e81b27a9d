use dx12_hal::descriptor::{CpuPool, FreeError, GeneralHeap, Handle};
use dx12_hal::error::DeviceError;
use dx12_hal::RawHandle;

fn heap(capacity: u32) -> GeneralHeap {
    GeneralHeap::new(RawHandle(0xA0), 1, capacity, 0x1000, 0x9000, 32).unwrap()
}

#[test]
fn a_new_heap_is_empty() {
    let heap = heap(4);
    assert_eq!(heap.raw(), RawHandle(0xA0));
    assert_eq!(heap.capacity(), 4);
    assert_eq!(heap.free_count(), 4);
    assert_eq!(heap.live_count(), 0);
}

#[test]
fn no_heap_without_a_stride_or_with_addresses_out_of_range() {
    assert!(GeneralHeap::new(RawHandle(1), 1, 4, 0, 0, 0).is_none());
    assert!(GeneralHeap::new(RawHandle(1), 1, 4, u64::MAX - 100, 0, 32).is_none());
    assert!(GeneralHeap::new(RawHandle(1), 1, 4, 0, u64::MAX - 127, 32).is_none());
    assert!(GeneralHeap::new(RawHandle(1), 1, 4, 0, u64::MAX - 128, 32).is_some());
    assert!(GeneralHeap::new(RawHandle(1), 1, u32::MAX, 0, 0, u64::MAX).is_none());
    assert!(CpuPool::new(1, 4, 0, 0).is_none());
    assert!(CpuPool::new(1, 4, u64::MAX - 127, 32).is_none());
    assert!(CpuPool::new(1, 4, u64::MAX - 128, 32).is_some());
}

#[test]
fn handles_are_distinct_slots_of_the_heap() {
    let mut heap = heap(4);
    let handles = heap.allocate(4).unwrap();
    assert_eq!(handles.len(), 4);
    let mut slots: Vec<u64> = Vec::new();
    for h in &handles {
        assert_eq!(h.heap_id, 1);
        assert!(h.cpu_address >= 0x1000);
        let off = h.cpu_address - 0x1000;
        assert_eq!(off % 32, 0);
        assert!(off / 32 < 4);
        assert_eq!(h.gpu_address, Some(0x9000 + off));
        assert!(!slots.contains(&(off / 32)));
        slots.push(off / 32);
        assert!(heap.is_live(*h));
    }
    assert_eq!(heap.live_count(), 4);
    assert_eq!(heap.free_count(), 0);
}

#[test]
fn allocation_beyond_the_free_slots_fails_and_changes_nothing() {
    let mut heap = heap(4);
    let first = heap.allocate(3).unwrap();
    assert_eq!(first.len(), 3);
    assert_eq!(heap.allocate(2), Err(DeviceError::OutOfMemory));
    assert_eq!(heap.live_count(), 3);
    assert_eq!(heap.free_count(), 1);
    for h in &first {
        assert!(heap.is_live(*h));
    }
    assert_eq!(heap.allocate(1).unwrap().len(), 1);
    assert_eq!(heap.allocate(1), Err(DeviceError::OutOfMemory));
    assert_eq!(heap.live_count(), 4);
}

#[test]
fn allocating_nothing_always_succeeds() {
    let mut heap = heap(1);
    assert_eq!(heap.allocate(0), Ok(Vec::new()));
    heap.allocate(1).unwrap();
    assert_eq!(heap.allocate(0), Ok(Vec::new()));
    let mut none = heap_of_none();
    assert_eq!(none.allocate(0), Ok(Vec::new()));
    assert_eq!(none.allocate(1), Err(DeviceError::OutOfMemory));
}

fn heap_of_none() -> GeneralHeap {
    heap(0)
}

#[test]
fn live_handles_never_exceed_the_capacity() {
    let mut heap = heap(3);
    let mut live: Vec<Handle> = Vec::new();
    for round in 0..20u32 {
        match heap.allocate(1 + round % 3) {
            Ok(hs) => live.extend(hs),
            Err(e) => assert_eq!(e, DeviceError::OutOfMemory),
        }
        assert!(heap.live_count() <= heap.capacity());
        assert_eq!(heap.live_count() as usize, live.len());
        assert_eq!(heap.live_count() + heap.free_count(), heap.capacity());
        if round % 2 == 1 {
            if let Some(h) = live.pop() {
                assert_eq!(heap.free(h), Ok(()));
            }
        }
    }
}

#[test]
fn a_freed_slot_is_handed_out_again() {
    let mut heap = heap(2);
    let hs = heap.allocate(2).unwrap();
    assert_eq!(heap.free(hs[0]), Ok(()));
    assert!(!heap.is_live(hs[0]));
    assert!(heap.is_live(hs[1]));
    let again = heap.allocate(1).unwrap();
    assert_eq!(again[0], hs[0]);
}

#[test]
fn a_second_free_is_refused() {
    let mut heap = heap(2);
    let hs = heap.allocate(2).unwrap();
    assert_eq!(heap.free(hs[1]), Ok(()));
    assert_eq!(heap.free(hs[1]), Err(FreeError::NotLive));
    assert_eq!(heap.live_count(), 1);
    assert_eq!(heap.free_count(), 1);
}

#[test]
fn handles_of_other_heaps_are_refused() {
    let mut heap = heap(2);
    let hs = heap.allocate(1).unwrap();
    let h = hs[0];
    let wrong_heap = Handle { heap_id: 2, ..h };
    let below = Handle { cpu_address: 0xFFF, ..h };
    let unaligned = Handle { cpu_address: h.cpu_address + 1, ..h };
    let beyond = Handle { cpu_address: 0x1000 + 2 * 32, gpu_address: Some(0x9000 + 2 * 32), ..h };
    let wrong_gpu = Handle { gpu_address: Some(1), ..h };
    let no_gpu = Handle { gpu_address: None, ..h };
    for bad in [wrong_heap, below, unaligned, beyond, wrong_gpu, no_gpu] {
        assert_eq!(heap.free(bad), Err(FreeError::Foreign));
        assert!(!heap.is_live(bad));
    }
    assert_eq!(heap.live_count(), 1);
    assert_eq!(heap.free(h), Ok(()));
}

#[test]
fn cpu_pool_hands_out_cpu_only_handles() {
    let mut pool = CpuPool::new(7, 3, 0x4000, 8).unwrap();
    assert_eq!(pool.capacity(), 3);
    let mut seen: Vec<u64> = Vec::new();
    for _ in 0..3 {
        let h = pool.alloc_handle().unwrap();
        assert_eq!(h.heap_id, 7);
        assert_eq!(h.gpu_address, None);
        assert!(h.cpu_address >= 0x4000 && h.cpu_address < 0x4000 + 3 * 8);
        assert_eq!((h.cpu_address - 0x4000) % 8, 0);
        assert!(!seen.contains(&h.cpu_address));
        seen.push(h.cpu_address);
    }
    assert_eq!(pool.alloc_handle(), Err(DeviceError::OutOfMemory));
    assert_eq!(pool.live_count(), 3);
    assert_eq!(pool.free_count(), 0);
}

#[test]
fn freeing_twice_from_a_cpu_pool_is_flagged_and_the_free_list_stays_sound() {
    let mut pool = CpuPool::new(7, 4, 0x4000, 8).unwrap();
    let a = pool.alloc_handle().unwrap();
    let b = pool.alloc_handle().unwrap();
    assert_eq!(pool.free_handle(a), Ok(()));
    assert_eq!(pool.free_handle(a), Err(FreeError::NotLive));
    // the free list holds each free slot once: three are free, one is live
    assert_eq!(pool.free_count(), 3);
    assert_eq!(pool.live_count(), 1);
    assert!(pool.is_live(b));
    assert!(!pool.is_live(a));
    let mut handed_out = vec![b];
    for _ in 0..3 {
        let h = pool.alloc_handle().unwrap();
        assert!(!handed_out.contains(&h));
        handed_out.push(h);
    }
    assert_eq!(pool.alloc_handle(), Err(DeviceError::OutOfMemory));
}

#[test]
fn cpu_pool_refuses_foreign_handles() {
    let mut pool = CpuPool::new(7, 2, 0x4000, 8).unwrap();
    let h = pool.alloc_handle().unwrap();
    assert_eq!(pool.free_handle(Handle { heap_id: 8, ..h }), Err(FreeError::Foreign));
    assert_eq!(pool.free_handle(Handle { gpu_address: Some(0), ..h }), Err(FreeError::Foreign));
    assert_eq!(
        pool.free_handle(Handle { cpu_address: 0x4000 + 16, ..h }),
        Err(FreeError::Foreign)
    );
    assert_eq!(pool.free_handle(Handle { cpu_address: 0x4003, ..h }), Err(FreeError::Foreign));
    assert_eq!(pool.free_handle(h), Ok(()));
}
