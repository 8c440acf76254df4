use dart_quic_ffi::memory_manager::{
    allocate, complete_allocation, deallocate, destroy_memory_manager,
    initialize_memory_manager, initialize_memory_manager_with_config,
    is_memory_manager_available, memory_stats, AllocStep, DartMemoryManager, MemoryManagerCell,
};
use dart_quic_ffi::memory_pool::{BlockSize, PoolConfig};

/// Stands in for the system allocator: hands out distinct addresses.
struct FakeSystem {
    next: usize,
}

impl FakeSystem {
    fn new() -> FakeSystem {
        FakeSystem { next: 0x10_0000 }
    }

    fn obtain(&mut self, size: usize) -> usize {
        let addr = self.next;
        self.next += size.max(1) + 64;
        addr
    }
}

fn run(manager: &mut DartMemoryManager, system: &mut FakeSystem, size: usize) -> usize {
    let mut step = manager.allocate(size);
    loop {
        match step {
            AllocStep::Ready(addr) => return addr,
            AllocStep::Zero { addr, .. } => return addr,
            AllocStep::System { size } => {
                let addr = system.obtain(size);
                step = manager.complete_allocation(addr);
            }
        }
    }
}

fn only_small(capacity: usize) -> PoolConfig {
    PoolConfig::new()
        .tiny_pool_size(0)
        .small_pool_size(capacity)
        .medium_pool_size(0)
        .large_pool_size(0)
        .huge_pool_size(0)
        .xlarge_pool_size(0)
}

#[test]
fn size_classes() {
    assert_eq!(BlockSize::for_size(0), None);
    assert_eq!(BlockSize::for_size(1), Some(BlockSize::Tiny));
    assert_eq!(BlockSize::for_size(32), Some(BlockSize::Tiny));
    assert_eq!(BlockSize::for_size(33), Some(BlockSize::Small));
    assert_eq!(BlockSize::for_size(128), Some(BlockSize::Small));
    assert_eq!(BlockSize::for_size(512), Some(BlockSize::Medium));
    assert_eq!(BlockSize::for_size(4096), Some(BlockSize::Large));
    assert_eq!(BlockSize::for_size(16384), Some(BlockSize::Huge));
    assert_eq!(BlockSize::for_size(65536), Some(BlockSize::XLarge));
    assert_eq!(BlockSize::for_size(65537), None);
    assert_eq!(BlockSize::XLarge.as_usize(), 65536);
    assert_eq!(BlockSize::Medium.pool_index(), 2);
    assert_eq!(BlockSize::from_index(3), Some(BlockSize::Large));
    assert_eq!(BlockSize::from_index(6), None);
}

#[test]
fn configuration_defaults_and_disabling() {
    let config = PoolConfig::new();
    assert_eq!(config.get_tiny_pool_size(), Some(20));
    assert_eq!(config.get_small_pool_size(), Some(20));
    assert_eq!(config.get_medium_pool_size(), Some(20));
    assert_eq!(config.get_large_pool_size(), Some(10));
    assert_eq!(config.get_huge_pool_size(), Some(10));
    assert_eq!(config.get_xlarge_pool_size(), Some(5));
    let config = config.tiny_pool_size(0).huge_pool_size(3);
    assert_eq!(config.get_tiny_pool_size(), None);
    assert!(!config.is_tiny_pool_enabled());
    assert_eq!(config.get_huge_pool_size(), Some(3));
    assert!(config.is_huge_pool_enabled());
    assert!(config.is_small_pool_enabled());
}

#[test]
fn three_allocations_with_capacity_two() {
    let mut manager = DartMemoryManager::with_config(only_small(2));
    let mut system = FakeSystem::new();
    let a = run(&mut manager, &mut system, 100);
    let b = run(&mut manager, &mut system, 100);
    let c = run(&mut manager, &mut system, 100);
    assert!(a != 0 && b != 0 && c != 0);
    let stats = manager.stats();
    assert_eq!(stats.pool_hits, 2);
    assert_eq!(stats.pool_misses, 1);
    assert_eq!(stats.direct_allocs, 1);
    assert_eq!(stats.total_allocation_requests, 3);
    assert_eq!(stats.total_allocated, 128 + 128 + 128);
    let small = &stats.pool_stats[1];
    assert_eq!(small.block_size, BlockSize::Small);
    assert_eq!(small.allocated_count, 2);
    assert_eq!(stats.pool_stats[0].max_pool_size, 0);
}

#[test]
fn system_count_stays_within_capacity() {
    let capacity = 3;
    let mut manager = DartMemoryManager::with_config(only_small(capacity));
    let mut system = FakeSystem::new();
    let mut held = Vec::new();
    for round in 0..10 {
        for _ in 0..(round % 5) {
            held.push(run(&mut manager, &mut system, 64));
        }
        while held.len() > round % 3 {
            let addr = held.pop().unwrap();
            manager.deallocate(addr, 64);
        }
        let stats = manager.stats();
        assert!(stats.pool_stats[1].allocated_count <= capacity);
        assert!(stats.pool_stats[1].free_count <= capacity);
    }
}

#[test]
fn recycled_block_is_handed_out_again() {
    let mut manager = DartMemoryManager::with_config(only_small(2));
    let mut system = FakeSystem::new();
    let a = run(&mut manager, &mut system, 100);
    assert!(!manager.deallocate(a, 100));
    match manager.allocate(90) {
        AllocStep::Zero { addr, len } => {
            assert_eq!(addr, a);
            assert_eq!(len, 128);
        }
        other => panic!("expected a recycled block, got {:?}", other),
    }
    assert_eq!(manager.stats().pool_hits, 2);
}

#[test]
fn deallocation_with_another_class_stays_in_that_class() {
    let mut manager = DartMemoryManager::new();
    let mut system = FakeSystem::new();
    let a = run(&mut manager, &mut system, 100);
    // Returned with a size of the 32 B class: kept there, tagged as such.
    assert!(!manager.deallocate(a, 20));
    let stats = manager.stats();
    assert_eq!(stats.pool_stats[0].free_count, 1);
    assert_eq!(stats.pool_stats[1].free_count, 0);
    // The 128 B class does not hand it out again.
    match manager.allocate(100) {
        AllocStep::System { size } => {
            assert_eq!(size, 128);
            manager.complete_allocation(0x9_0000);
        }
        other => panic!("expected a fresh block, got {:?}", other),
    }
    // The 32 B class does.
    assert_eq!(manager.allocate(20), AllocStep::Zero { addr: a, len: 32 });
    assert_eq!(manager.stats().total_type_mismatches, 0);
}

#[test]
fn null_deallocation_is_a_no_op() {
    let mut manager = DartMemoryManager::new();
    let before = manager.stats();
    assert!(!manager.deallocate(0, 0));
    let after = manager.stats();
    assert_eq!(before.pool_hits, after.pool_hits);
    assert_eq!(before.pool_misses, after.pool_misses);
    assert_eq!(before.direct_allocs, after.direct_allocs);
    assert_eq!(before.total_allocation_requests, after.total_allocation_requests);
    for (b, a) in before.pool_stats.iter().zip(after.pool_stats.iter()) {
        assert_eq!(b.pool_deallocations, a.pool_deallocations);
        assert_eq!(b.free_count, a.free_count);
    }
}

#[test]
fn zero_size_and_oversized_requests() {
    let mut manager = DartMemoryManager::new();
    assert_eq!(manager.allocate(0), AllocStep::Ready(0));
    assert_eq!(manager.stats().total_allocation_requests, 0);
    assert_eq!(manager.allocate(70000), AllocStep::System { size: 70000 });
    assert_eq!(manager.complete_allocation(0xabc000), AllocStep::Ready(0xabc000));
    let stats = manager.stats();
    assert_eq!(stats.direct_allocs, 1);
    assert_eq!(stats.total_allocated, 70000);
    assert!(manager.deallocate(0xabc000, 70000));
}

#[test]
fn failed_pool_block_falls_back_to_direct() {
    let mut manager = DartMemoryManager::with_config(only_small(1));
    assert_eq!(manager.allocate(100), AllocStep::System { size: 128 });
    assert_eq!(manager.complete_allocation(0), AllocStep::System { size: 128 });
    assert_eq!(manager.complete_allocation(0), AllocStep::Ready(0));
    let stats = manager.stats();
    assert_eq!(stats.pool_misses, 1);
    assert_eq!(stats.pool_stats[1].allocated_count, 0);
    assert_eq!(stats.direct_allocs, 0);
}

#[test]
fn full_free_list_declines_blocks() {
    let mut manager = DartMemoryManager::with_config(only_small(1));
    assert!(!manager.deallocate(0x1000, 100));
    assert!(manager.deallocate(0x2000, 100));
    assert!(manager.deallocate(0x3000, 20));
    let released = manager.cleanup();
    assert_eq!(released, vec![0x1000]);
    assert_eq!(manager.stats().pool_stats[1].free_count, 0);
}

#[test]
fn process_wide_cell_lifecycle() {
    let mut cell = MemoryManagerCell::new();
    assert!(!is_memory_manager_available(&cell));
    assert!(memory_stats(&cell).is_none());
    assert!(destroy_memory_manager(&mut cell).is_none());
    assert!(!deallocate(&mut cell, 0, 16));
    assert!(!is_memory_manager_available(&cell));

    assert!(initialize_memory_manager_with_config(&mut cell, only_small(4)));
    assert!(initialize_memory_manager(&mut cell));
    assert!(initialize_memory_manager_with_config(&mut cell, PoolConfig::new()));
    let stats = memory_stats(&cell).unwrap();
    assert_eq!(stats.pool_stats[1].max_pool_size, 4);
    assert_eq!(stats.pool_stats[0].max_pool_size, 0);

    assert_eq!(allocate(&mut cell, 100), AllocStep::System { size: 128 });
    assert_eq!(complete_allocation(&mut cell, 0x4000), AllocStep::Ready(0x4000));
    assert!(!deallocate(&mut cell, 0x4000, 100));
    assert!(deallocate(&mut cell, 0x5000, 16));
    assert_eq!(destroy_memory_manager(&mut cell), Some(vec![0x4000]));
    assert!(is_memory_manager_available(&cell));
}

#[test]
fn deallocation_initialises_the_cell() {
    let mut cell = MemoryManagerCell::new();
    assert!(!deallocate(&mut cell, 0x10, 16));
    assert!(is_memory_manager_available(&cell));
    assert_eq!(memory_stats(&cell).unwrap().pool_stats[0].free_count, 1);
}

#[test]
fn allocation_initialises_the_cell() {
    let mut cell = MemoryManagerCell::new();
    assert_eq!(allocate(&mut cell, 10), AllocStep::System { size: 32 });
    assert!(is_memory_manager_available(&cell));
    assert_eq!(memory_stats(&cell).unwrap().pool_stats[0].max_pool_size, 20);
}

#[test]
fn direct_fallback_block_is_class_sized() {
    let mut manager = DartMemoryManager::with_config(only_small(1));
    assert_eq!(manager.allocate(100), AllocStep::System { size: 128 });
    assert_eq!(manager.complete_allocation(0x1000), AllocStep::Ready(0x1000));
    // The pool is at capacity: the fallback still asks for a whole 128 B block.
    assert_eq!(manager.allocate(100), AllocStep::System { size: 128 });
    assert_eq!(manager.complete_allocation(0x2000), AllocStep::Ready(0x2000));
    assert!(!manager.deallocate(0x2000, 100));
    assert_eq!(manager.allocate(100), AllocStep::Zero { addr: 0x2000, len: 128 });
    // A class without a pool asks for the requested size only.
    let mut plain = DartMemoryManager::with_config(only_small(0));
    assert_eq!(plain.allocate(100), AllocStep::System { size: 100 });
}
