//! The memory manager: one pool per enabled size class, direct system
//! allocation beside them, and aggregate statistics.
//!
//! The manager decides; the caller performs the system calls. An allocation
//! is a short exchange: `allocate` answers with an [`AllocStep`], and each
//! `System` step is answered with `complete_allocation`, until a step hands
//! out an address.
use crate::memory_pool::{
    add_counter, add_wrapping, bump, bump_counter, class_at, class_bytes, class_for, class_index,
    BlockSize, PoolConfig, PoolGrant, PoolState, PoolStats, TypeSafeMemoryPool, TypedPointer,
    CLASS_COUNT,
};
use vstd::prelude::*;

verus! {

/// Counters kept beside the pools.
#[derive(Debug, Clone, Copy, PartialEq, Eq, Structural)]
pub struct LockFreeMemoryStats {
    pub direct_allocs: u64,
    pub direct_deallocs: u64,
    pub total_allocated_bytes: u64,
    pub allocation_requests: u64,
}

impl Default for LockFreeMemoryStats {
    fn default() -> (r: LockFreeMemoryStats)
        ensures
            r == LockFreeMemoryStats::zero(),
    {
        LockFreeMemoryStats {
            direct_allocs: 0,
            direct_deallocs: 0,
            total_allocated_bytes: 0,
            allocation_requests: 0,
        }
    }
}

impl LockFreeMemoryStats {
    /// All counters at zero.
    pub open spec fn zero() -> LockFreeMemoryStats {
        LockFreeMemoryStats {
            direct_allocs: 0,
            direct_deallocs: 0,
            total_allocated_bytes: 0,
            allocation_requests: 0,
        }
    }
}

/// A point-in-time aggregate of every counter.
#[derive(Debug, Default, Clone)]
pub struct MemoryStats {
    pub pool_hits: u64,
    pub pool_misses: u64,
    pub direct_allocs: u64,
    pub total_allocated: u64,
    pub pool_stats: Vec<PoolStats>,
    pub total_type_mismatches: u64,
    pub total_allocation_requests: u64,
}

/// The system allocation that the manager is waiting to hear about.
#[derive(Debug, Clone, Copy, PartialEq, Eq, Structural)]
pub enum PendingAlloc {
    Idle,
    /// A fresh block for the pool of `block_size`.
    Pooled { block_size: BlockSize },
    /// A direct allocation of `size` bytes: the class size when the request's
    /// class has a pool, so that the block may later join that pool, else the
    /// requested size.
    Direct { size: usize },
}

/// What the caller does next in an allocation.
#[derive(Debug, Clone, Copy, PartialEq, Eq, Structural)]
pub enum AllocStep {
    /// The allocation is over: this address (null on failure) is the result.
    Ready(usize),
    /// Zero `len` bytes at `addr`; then `addr` is the result.
    Zero { addr: usize, len: usize },
    /// Obtain `size` zeroed bytes from the system and report the address
    /// (null on failure) to `complete_allocation`.
    System { size: usize },
}

/// What a manager holds, as plain values.
pub struct ManagerState {
    pub pools: Seq<Option<PoolState>>,
    pub stats: LockFreeMemoryStats,
    pub config: PoolConfig,
    pub pending: PendingAlloc,
}

/// The state of an optional pool.
pub open spec fn slot_view(o: Option<TypeSafeMemoryPool>) -> Option<PoolState> {
    match o {
        Some(p) => Some(p@),
        None => None,
    }
}

/// The pool that a configuration gives to class `b`.
pub open spec fn configured_pool(config: PoolConfig, b: BlockSize) -> Option<PoolState> {
    match config.capacity(b) {
        Some(n) => Some(PoolState::fresh(b, n)),
        None => None,
    }
}

/// The snapshot of each class, in class order; a disabled class reads as zeros.
pub open spec fn pool_stats_of(pools: Seq<Option<PoolState>>) -> Seq<PoolStats> {
    Seq::new(
        pools.len(),
        |i: int|
            match pools[i] {
                Some(p) => PoolStats::of(p),
                None => PoolStats::disabled(class_at(i as nat).unwrap()),
            },
    )
}

/// The wrapping sum of the hits over a list of snapshots.
pub open spec fn sum_hits(s: Seq<PoolStats>) -> u64
    decreases s.len(),
{
    if s.len() == 0 {
        0
    } else {
        add_wrapping(sum_hits(s.drop_last()), s.last().pool_hits)
    }
}

/// The wrapping sum of the misses over a list of snapshots.
pub open spec fn sum_misses(s: Seq<PoolStats>) -> u64
    decreases s.len(),
{
    if s.len() == 0 {
        0
    } else {
        add_wrapping(sum_misses(s.drop_last()), s.last().pool_misses)
    }
}

/// The wrapping sum of the class mismatches over a list of snapshots.
pub open spec fn sum_mismatches(s: Seq<PoolStats>) -> u64
    decreases s.len(),
{
    if s.len() == 0 {
        0
    } else {
        add_wrapping(sum_mismatches(s.drop_last()), s.last().type_mismatches)
    }
}

/// The addresses that emptying every pool hands back, pool after pool.
pub open spec fn released_all(pools: Seq<Option<PoolState>>) -> Seq<usize>
    decreases pools.len(),
{
    if pools.len() == 0 {
        Seq::empty()
    } else {
        released_all(pools.drop_last()) + match pools.last() {
            Some(p) => p.released(),
            None => Seq::empty(),
        }
    }
}

/// The pools after each is emptied.
pub open spec fn cleaned(pools: Seq<Option<PoolState>>) -> Seq<Option<PoolState>> {
    pools.map_values(
        |o: Option<PoolState>|
            match o {
                Some(p) => Some(p.after_cleanup()),
                None => None,
            },
    )
}

/// One slot per class, a pool exactly where the configuration enables one,
/// and each pool well formed, of its own class and with its configured
/// capacity.
pub open spec fn pools_wf(pools: Seq<Option<PoolState>>, config: PoolConfig) -> bool {
    &&& pools.len() == CLASS_COUNT
    &&& forall|b: BlockSize|
        match #[trigger] pools[class_index(b) as int] {
            Some(p) => p.wf() && p.block_size == b && config.capacity(b) == Some(
                p.max_pool_size as usize,
            ),
            None => config.capacity(b) is None,
        }
}

impl ManagerState {
    /// A new manager built from `config`.
    pub open spec fn initial(config: PoolConfig) -> ManagerState {
        ManagerState {
            pools: Seq::new(
                CLASS_COUNT as nat,
                |i: int| configured_pool(config, class_at(i as nat).unwrap()),
            ),
            stats: LockFreeMemoryStats::zero(),
            config,
            pending: PendingAlloc::Idle,
        }
    }

    /// The pool of class `b`, if that class is enabled.
    pub open spec fn pool(self, b: BlockSize) -> Option<PoolState> {
        self.pools[class_index(b) as int]
    }

    /// The same manager with the pool of `b` replaced.
    pub open spec fn with_pool(self, b: BlockSize, p: PoolState) -> ManagerState {
        ManagerState { pools: self.pools.update(class_index(b) as int, Some(p)), ..self }
    }

    /// The manager's invariant: the pools fit the configuration, and a
    /// pending fresh block has its slot reserved.
    pub open spec fn wf(self) -> bool {
        &&& pools_wf(self.pools, self.config)
        &&& self.pending matches PendingAlloc::Pooled { block_size } ==> self.pool(
            block_size,
        ) matches Some(p) && p.allocated_count > 0
    }

    /// The first step of an allocation of `size` bytes.
    pub open spec fn allocate_step(self, size: usize) -> (ManagerState, AllocStep) {
        if size == 0 {
            (self, AllocStep::Ready(0))
        } else {
            let s = ManagerState {
                stats: LockFreeMemoryStats {
                    allocation_requests: bump(self.stats.allocation_requests),
                    ..self.stats
                },
                ..self
            };
            let direct = (
                ManagerState { pending: PendingAlloc::Direct { size }, ..s },
                AllocStep::System { size },
            );
            match class_for(size as nat) {
                Some(b) => match self.pool(b) {
                    Some(p) => {
                        let t = s.with_pool(b, p.after_allocate());
                        match p.grant() {
                            PoolGrant::Reused(addr) => (
                                ManagerState {
                                    stats: LockFreeMemoryStats {
                                        total_allocated_bytes: add_wrapping(
                                            s.stats.total_allocated_bytes,
                                            class_bytes(b) as u64,
                                        ),
                                        ..s.stats
                                    },
                                    pending: PendingAlloc::Idle,
                                    ..t
                                },
                                AllocStep::Zero { addr, len: class_bytes(b) as usize },
                            ),
                            PoolGrant::Reserved => (
                                ManagerState {
                                    pending: PendingAlloc::Pooled { block_size: b },
                                    ..t
                                },
                                AllocStep::System { size: class_bytes(b) as usize },
                            ),
                            PoolGrant::Refused => (
                                ManagerState {
                                    pending: PendingAlloc::Direct { size: class_bytes(b) as usize },
                                    ..t
                                },
                                AllocStep::System { size: class_bytes(b) as usize },
                            ),
                        }
                    },
                    None => direct,
                },
                None => direct,
            }
        }
    }

    /// The step that follows a system allocation that returned `addr`.
    pub open spec fn complete_step(self, addr: usize) -> (ManagerState, AllocStep) {
        match self.pending {
            PendingAlloc::Pooled { block_size } => {
                let s = self.with_pool(
                    block_size,
                    self.pool(block_size).unwrap().after_confirm(addr != 0),
                );
                if addr != 0 {
                    (
                        ManagerState {
                            stats: LockFreeMemoryStats {
                                total_allocated_bytes: add_wrapping(
                                    self.stats.total_allocated_bytes,
                                    class_bytes(block_size) as u64,
                                ),
                                ..self.stats
                            },
                            pending: PendingAlloc::Idle,
                            ..s
                        },
                        AllocStep::Ready(addr),
                    )
                } else {
                    (
                        ManagerState {
                            pending: PendingAlloc::Direct { size: class_bytes(block_size) as usize },
                            ..s
                        },
                        AllocStep::System { size: class_bytes(block_size) as usize },
                    )
                }
            },
            PendingAlloc::Direct { size } => {
                if addr != 0 {
                    (
                        ManagerState {
                            stats: LockFreeMemoryStats {
                                direct_allocs: bump(self.stats.direct_allocs),
                                total_allocated_bytes: add_wrapping(
                                    self.stats.total_allocated_bytes,
                                    size as u64,
                                ),
                                ..self.stats
                            },
                            pending: PendingAlloc::Idle,
                            ..self
                        },
                        AllocStep::Ready(addr),
                    )
                } else {
                    (ManagerState { pending: PendingAlloc::Idle, ..self }, AllocStep::Ready(0))
                }
            },
            PendingAlloc::Idle => (self, AllocStep::Ready(addr)),
        }
    }

    /// A deallocation of the block at `ptr`, requested with `size` bytes: the
    /// new state, and whether the caller must give the block to the system.
    pub open spec fn deallocate_step(self, ptr: usize, size: usize) -> (ManagerState, bool) {
        if ptr == 0 {
            (self, false)
        } else {
            let direct = (
                ManagerState {
                    stats: LockFreeMemoryStats {
                        direct_deallocs: bump(self.stats.direct_deallocs),
                        ..self.stats
                    },
                    ..self
                },
                true,
            );
            match class_for(size as nat) {
                Some(b) => match self.pool(b) {
                    Some(p) => if p.accepts(ptr) {
                        (self.with_pool(b, p.after_accept(ptr)), false)
                    } else {
                        direct
                    },
                    None => direct,
                },
                None => direct,
            }
        }
    }
}

/// A set of pools, one per enabled size class, with its counters.
pub struct DartMemoryManager {
    pools: Vec<Option<TypeSafeMemoryPool>>,
    stats: LockFreeMemoryStats,
    config: PoolConfig,
    pending: PendingAlloc,
}

impl View for DartMemoryManager {
    type V = ManagerState;

    closed spec fn view(&self) -> ManagerState {
        ManagerState {
            pools: self.pools@.map_values(|o: Option<TypeSafeMemoryPool>| slot_view(o)),
            stats: self.stats,
            config: self.config,
            pending: self.pending,
        }
    }
}

/// Each position below the class count holds a class, which sits there.
proof fn lemma_index_class(i: nat)
    requires
        i < CLASS_COUNT,
    ensures
        class_at(i) matches Some(b) && class_index(b) == i,
{
}

/// Distinct classes sit at distinct positions.
proof fn lemma_class_index_injective(a: BlockSize, b: BlockSize)
    ensures
        class_index(a) == class_index(b) ==> a == b,
        class_index(a) < CLASS_COUNT,
{
}

/// The invariant depends on the counters not at all, and on the pending
/// allocation only through a reservation.
proof fn lemma_wf_frame(m: ManagerState, n: ManagerState)
    requires
        pools_wf(m.pools, m.config),
        n.pools == m.pools,
        n.config == m.config,
        n.pending is Idle || n.pending is Direct,
    ensures
        n.wf(),
{
}

/// Replacing one pool by a well-formed pool of the same class and capacity
/// keeps the pools well formed.
proof fn lemma_with_pool_wf(m: ManagerState, b: BlockSize, p: PoolState)
    requires
        pools_wf(m.pools, m.config),
        m.pool(b) matches Some(q) && q.max_pool_size == p.max_pool_size,
        p.wf(),
        p.block_size == b,
    ensures
        pools_wf(m.with_pool(b, p).pools, m.config),
        m.with_pool(b, p).pool(b) == Some(p),
        forall|c: BlockSize| c != b ==> #[trigger] m.with_pool(b, p).pool(c) == m.pool(c),
{
    assert forall|c: BlockSize| c != b implies #[trigger] m.with_pool(b, p).pool(c) == m.pool(c) by {
        lemma_class_index_injective(b, c);
    }
    let n = m.with_pool(b, p);
    assert forall|c: BlockSize|
        match #[trigger] n.pools[class_index(c) as int] {
            Some(q) => q.wf() && q.block_size == c && m.config.capacity(c) == Some(
                q.max_pool_size as usize,
            ),
            None => m.config.capacity(c) is None,
        } by {
        lemma_class_index_injective(b, c);
        assert(m.pool(c) == m.pools[class_index(c) as int]);
    }
}

impl DartMemoryManager {
    /// Runs one allocation step on the pool of `b`, if that class is enabled.
    fn pool_allocate(&mut self, b: BlockSize) -> (r: Option<PoolGrant>)
        requires
            old(self)@.wf(),
        ensures
            old(self)@.pool(b) is None ==> r is None && final(self)@ == old(self)@,
            old(self)@.pool(b) matches Some(p) ==> r == Some(p.grant()) && final(self)@
                == old(self)@.with_pool(b, p.after_allocate()),
    {
        let i = b.pool_index();
        let ghost before = self@;
        let r = match &mut self.pools[i] {
            Some(pool) => Some(pool.allocate()),
            None => None,
        };
        proof {
            assert(self@.pools =~= before.pools.update(i as int, slot_view(self.pools@[i as int])));
            if r is None {
                assert(self@.pools =~= before.pools);
            }
        }
        r
    }

    /// Settles the reservation of the pool of `b`.
    fn pool_confirm(&mut self, b: BlockSize, obtained: bool)
        requires
            old(self)@.wf(),
            old(self)@.pool(b) matches Some(p) && p.allocated_count > 0,
        ensures
            final(self)@ == old(self)@.with_pool(b, old(self)@.pool(b).unwrap().after_confirm(obtained)),
    {
        let i = b.pool_index();
        let ghost before = self@;
        match &mut self.pools[i] {
            Some(pool) => pool.confirm_reservation(obtained),
            None => {},
        }
        proof {
            assert(self@.pools =~= before.pools.update(i as int, slot_view(self.pools@[i as int])));
        }
    }

    /// Offers a block to the pool of `b`; false if the class is disabled or
    /// the pool declines.
    fn pool_accept(&mut self, b: BlockSize, ptr: usize) -> (r: bool)
        requires
            old(self)@.wf(),
        ensures
            r == (old(self)@.pool(b) matches Some(p) && p.accepts(ptr)),
            r ==> final(self)@ == old(self)@.with_pool(b, old(self)@.pool(b).unwrap().after_accept(ptr)),
            !r ==> final(self)@ == old(self)@,
    {
        let i = b.pool_index();
        let ghost before = self@;
        let r = match &mut self.pools[i] {
            Some(pool) => pool.try_deallocate(ptr),
            None => false,
        };
        proof {
            assert(self@.pools =~= before.pools.update(i as int, slot_view(self.pools@[i as int])));
            if !r {
                assert(self@.pools =~= before.pools);
            }
        }
        r
    }

    /// A manager with the pools that `config` enables.
    pub fn with_config(config: PoolConfig) -> (r: DartMemoryManager)
        ensures
            r@.wf(),
            r@ == ManagerState::initial(config),
            forall|b: BlockSize| #[trigger] r@.pool(b) == configured_pool(config, b),
    {
        let mut pools: Vec<Option<TypeSafeMemoryPool>> = Vec::new();
        let mut i: usize = 0;
        while i < CLASS_COUNT
            invariant
                i <= CLASS_COUNT,
                pools@.len() == i,
                forall|j: int|
                    0 <= j < i ==> #[trigger] slot_view(pools@[j]) == configured_pool(
                        config,
                        class_at(j as nat).unwrap(),
                    ),
                forall|j: int|
                    0 <= j < i ==> (#[trigger] pools@[j] matches Some(p) ==> p@.wf()),
            decreases CLASS_COUNT - i,
        {
            let b = match BlockSize::from_index(i) {
                Some(b) => b,
                None => BlockSize::Tiny,
            };
            match config.capacity_for(b) {
                Some(n) => pools.push(Some(TypeSafeMemoryPool::new(b, n))),
                None => pools.push(None),
            }
            i = i + 1;
        }
        let r = DartMemoryManager {
            pools,
            stats: LockFreeMemoryStats::default(),
            config,
            pending: PendingAlloc::Idle,
        };
        proof {
            assert forall|b: BlockSize| #[trigger] r@.pool(b) == configured_pool(config, b) by {
                assert(class_at(class_index(b)) == Some(b));
                assert(r@.pools[class_index(b) as int] == slot_view(pools@[class_index(b) as int]));
            }
            assert forall|b: BlockSize|
                match #[trigger] r@.pool(b) {
                    Some(p) => p.wf() && p.block_size == b && r@.config.capacity(b) == Some(
                        p.max_pool_size as usize,
                    ),
                    None => r@.config.capacity(b) is None,
                } by {
                assert(class_at(class_index(b)) == Some(b));
                assert(r@.pools[class_index(b) as int] == slot_view(pools@[class_index(b) as int]));
            }
            assert(r@.pools =~= ManagerState::initial(config).pools);
        }
        r
    }

    /// A manager with every class at its default capacity.
    pub fn new() -> (r: DartMemoryManager)
        ensures
            r@.wf(),
            r@ == ManagerState::initial(PoolConfig::defaults()),
    {
        DartMemoryManager::with_config(PoolConfig::new())
    }

    /// The configuration the manager was built with.
    pub fn config(&self) -> (r: PoolConfig)
        ensures
            r == self@.config,
    {
        self.config
    }

    /// Starts an allocation of `size` bytes. A zero size yields null at once
    /// and counts nothing. Otherwise the request is counted and served from
    /// the class's pool when it has a free block (zeroed by the caller) or a
    /// slot below capacity (a fresh block from the system). A refusing pool
    /// falls back to a direct block of the class size, so that the block can
    /// join the pool when it is given back; a disabled class or a size above
    /// every class goes to the system directly for the requested size.
    pub fn allocate(&mut self, size: usize) -> (r: AllocStep)
        requires
            old(self)@.wf(),
        ensures
            final(self)@.wf(),
            (final(self)@, r) == old(self)@.allocate_step(size),
    {
        let ghost start = self@;
        if size == 0 {
            return AllocStep::Ready(0);
        }
        self.stats.allocation_requests = bump_counter(self.stats.allocation_requests);
        let ghost counted = self@;
        match BlockSize::for_size(size) {
            Some(b) => {
                proof {
                    lemma_class_index_injective(b, b);
                }
                match self.pool_allocate(b) {
                    Some(PoolGrant::Reused(addr)) => {
                        let len = b.as_usize();
                        self.stats.total_allocated_bytes = add_counter(
                            self.stats.total_allocated_bytes,
                            len as u64,
                        );
                        self.pending = PendingAlloc::Idle;
                        proof {
                            lemma_with_pool_wf(counted, b, counted.pool(b).unwrap().after_allocate());
                            lemma_wf_frame(
                                counted.with_pool(b, counted.pool(b).unwrap().after_allocate()),
                                self@,
                            );
                        }
                        return AllocStep::Zero { addr, len };
                    },
                    Some(PoolGrant::Reserved) => {
                        self.pending = PendingAlloc::Pooled { block_size: b };
                        proof {
                            lemma_with_pool_wf(
                                ManagerState { pending: PendingAlloc::Idle, ..counted },
                                b,
                                counted.pool(b).unwrap().after_allocate(),
                            );
                        }
                        return AllocStep::System { size: b.as_usize() };
                    },
                    Some(PoolGrant::Refused) => {
                        let ghost refused = self@;
                        proof {
                            lemma_with_pool_wf(
                                ManagerState { pending: PendingAlloc::Idle, ..counted },
                                b,
                                counted.pool(b).unwrap().after_allocate(),
                            );
                        }
                        let class_size = b.as_usize();
                        self.pending = PendingAlloc::Direct { size: class_size };
                        proof {
                            lemma_wf_frame(ManagerState { pending: PendingAlloc::Idle, ..refused }, self@);
                        }
                        return AllocStep::System { size: class_size };
                    },
                    None => {},
                }
            },
            None => {},
        }
        let ghost before_pending = self@;
        proof {
            if class_for(size as nat) is Some && counted.pool(class_for(size as nat).unwrap()) is Some {
                let b = class_for(size as nat).unwrap();
                lemma_with_pool_wf(
                    ManagerState { pending: PendingAlloc::Idle, ..counted },
                    b,
                    counted.pool(b).unwrap().after_allocate(),
                );
            }
        }
        self.pending = PendingAlloc::Direct { size };
        proof {
            lemma_wf_frame(ManagerState { pending: PendingAlloc::Idle, ..before_pending }, self@);
        }
        AllocStep::System { size }
    }

    /// Continues an allocation with the address (null on failure) that the
    /// system returned for the last `System` step. A fresh pool block that
    /// arrived is a pool hit; one that failed gives its slot back, counts a
    /// miss and falls back to a direct allocation of the class size. A
    /// direct allocation that arrived is counted with its size. With nothing pending the
    /// address is handed back unchanged.
    pub fn complete_allocation(&mut self, addr: usize) -> (r: AllocStep)
        requires
            old(self)@.wf(),
        ensures
            final(self)@.wf(),
            (final(self)@, r) == old(self)@.complete_step(addr),
    {
        let ghost start = self@;
        match self.pending {
            PendingAlloc::Pooled { block_size } => {
                self.pool_confirm(block_size, addr != 0);
                proof {
                    lemma_with_pool_wf(
                        ManagerState { pending: PendingAlloc::Idle, ..start },
                        block_size,
                        start.pool(block_size).unwrap().after_confirm(addr != 0),
                    );
                }
                let ghost confirmed = self@;
                if addr != 0 {
                    self.stats.total_allocated_bytes = add_counter(
                        self.stats.total_allocated_bytes,
                        block_size.as_usize() as u64,
                    );
                    self.pending = PendingAlloc::Idle;
                    proof {
                        lemma_wf_frame(ManagerState { pending: PendingAlloc::Idle, ..confirmed }, self@);
                    }
                    AllocStep::Ready(addr)
                } else {
                    let class_size = block_size.as_usize();
                    self.pending = PendingAlloc::Direct { size: class_size };
                    proof {
                        lemma_wf_frame(ManagerState { pending: PendingAlloc::Idle, ..confirmed }, self@);
                    }
                    AllocStep::System { size: class_size }
                }
            },
            PendingAlloc::Direct { size } => {
                self.pending = PendingAlloc::Idle;
                if addr != 0 {
                    self.stats.direct_allocs = bump_counter(self.stats.direct_allocs);
                    self.stats.total_allocated_bytes = add_counter(
                        self.stats.total_allocated_bytes,
                        size as u64,
                    );
                    AllocStep::Ready(addr)
                } else {
                    AllocStep::Ready(0)
                }
            },
            PendingAlloc::Idle => AllocStep::Ready(addr),
        }
    }

    /// Takes back the block at `ptr` that was allocated with `size` bytes.
    /// Null is ignored. The pool of the class that `size` maps to keeps the
    /// block while its free list is below capacity; otherwise the result is
    /// true: the caller gives the block to the system, which is counted.
    pub fn deallocate(&mut self, ptr: usize, size: usize) -> (r: bool)
        requires
            old(self)@.wf(),
        ensures
            final(self)@.wf(),
            (final(self)@, r) == old(self)@.deallocate_step(ptr, size),
    {
        let ghost start = self@;
        if ptr == 0 {
            return false;
        }
        match BlockSize::for_size(size) {
            Some(b) => {
                if self.pool_accept(b, ptr) {
                    proof {
                        lemma_with_pool_wf(start, b, start.pool(b).unwrap().after_accept(ptr));
                    }
                    return false;
                }
            },
            None => {},
        }
        self.stats.direct_deallocs = bump_counter(self.stats.direct_deallocs);
        true
    }

    /// A point-in-time aggregate: each class's snapshot in class order (zeros
    /// for a disabled class), the wrapping sums of hits, misses and class
    /// mismatches over them, and the manager's own counters.
    pub fn stats(&self) -> (r: MemoryStats)
        requires
            self@.wf(),
        ensures
            r.pool_stats@ == pool_stats_of(self@.pools),
            r.pool_hits == sum_hits(pool_stats_of(self@.pools)),
            r.pool_misses == sum_misses(pool_stats_of(self@.pools)),
            r.total_type_mismatches == sum_mismatches(pool_stats_of(self@.pools)),
            r.direct_allocs == self@.stats.direct_allocs,
            r.total_allocated == self@.stats.total_allocated_bytes,
            r.total_allocation_requests == self@.stats.allocation_requests,
    {
        let ghost all = pool_stats_of(self@.pools);
        let mut pool_hits: u64 = 0;
        let mut pool_misses: u64 = 0;
        let mut type_mismatches: u64 = 0;
        let mut pool_stats: Vec<PoolStats> = Vec::new();
        let mut i: usize = 0;
        while i < CLASS_COUNT
            invariant
                self@.wf(),
                all == pool_stats_of(self@.pools),
                i <= CLASS_COUNT,
                pool_stats@ == all.subrange(0, i as int),
                pool_hits == sum_hits(pool_stats@),
                pool_misses == sum_misses(pool_stats@),
                type_mismatches == sum_mismatches(pool_stats@),
            decreases CLASS_COUNT - i,
        {
            proof {
                lemma_index_class(i as nat);
            }
            let b = match BlockSize::from_index(i) {
                Some(b) => b,
                None => BlockSize::Tiny,
            };
            let st = match &self.pools[i] {
                Some(pool) => pool.get_stats(),
                None => PoolStats {
                    block_size: b,
                    allocated_count: 0,
                    free_count: 0,
                    max_pool_size: 0,
                    pool_allocations: 0,
                    pool_deallocations: 0,
                    pool_hits: 0,
                    pool_misses: 0,
                    type_mismatches: 0,
                },
            };
            pool_hits = add_counter(pool_hits, st.pool_hits);
            pool_misses = add_counter(pool_misses, st.pool_misses);
            type_mismatches = add_counter(type_mismatches, st.type_mismatches);
            let ghost prev = pool_stats@;
            pool_stats.push(st);
            proof {
                assert(all[i as int] == st);
                assert(pool_stats@ =~= all.subrange(0, i + 1));
                assert(pool_stats@.drop_last() =~= prev);
            }
            i = i + 1;
        }
        proof {
            assert(all.subrange(0, CLASS_COUNT as int) =~= all);
        }
        MemoryStats {
            pool_hits,
            pool_misses,
            direct_allocs: self.stats.direct_allocs,
            total_allocated: self.stats.total_allocated_bytes,
            pool_stats,
            total_type_mismatches: type_mismatches,
            total_allocation_requests: self.stats.allocation_requests,
        }
    }

    /// Empties the pool at position `i`, returning the addresses it held.
    fn pool_cleanup(&mut self, i: usize) -> (r: Vec<usize>)
        requires
            old(self)@.wf(),
            i < CLASS_COUNT,
        ensures
            final(self)@ == (ManagerState {
                pools: old(self)@.pools.update(
                    i as int,
                    match old(self)@.pools[i as int] {
                        Some(p) => Some(p.after_cleanup()),
                        None => None,
                    },
                ),
                ..old(self)@
            }),
            r@ == match old(self)@.pools[i as int] {
                Some(p) => p.released(),
                None => Seq::empty(),
            },
    {
        let ghost before = self@;
        proof {
            lemma_index_class(i as nat);
            let b = class_at(i as nat).unwrap();
            assert(before.pools[class_index(b) as int] == before.pools[i as int]);
        }
        let r = match &mut self.pools[i] {
            Some(pool) => pool.cleanup(),
            None => Vec::new(),
        };
        proof {
            assert(self@.pools =~= before.pools.update(i as int, slot_view(self.pools@[i as int])));
        }
        r
    }

    /// Empties every pool's free list and returns the addresses, pool after
    /// pool, that the caller gives back to the system. The counters stay; an
    /// allocation in progress is abandoned.
    pub fn cleanup(&mut self) -> (r: Vec<usize>)
        requires
            old(self)@.wf(),
        ensures
            final(self)@.wf(),
            r@ == released_all(old(self)@.pools),
            final(self)@.pools == cleaned(old(self)@.pools),
            final(self)@.stats == old(self)@.stats,
            final(self)@.config == old(self)@.config,
            final(self)@.pending == PendingAlloc::Idle,
    {
        let ghost start = self@;
        self.pending = PendingAlloc::Idle;
        let mut released: Vec<usize> = Vec::new();
        let mut i: usize = 0;
        while i < CLASS_COUNT
            invariant
                i <= CLASS_COUNT,
                self@.wf(),
                pools_wf(start.pools, start.config),
                self@.stats == start.stats,
                self@.config == start.config,
                self@.pending == PendingAlloc::Idle,
                self@.pools.len() == CLASS_COUNT,
                forall|j: int| 0 <= j < i ==> #[trigger] self@.pools[j] == cleaned(start.pools)[j],
                forall|j: int| i <= j < CLASS_COUNT ==> #[trigger] self@.pools[j] == start.pools[j],
                released@ == released_all(start.pools.subrange(0, i as int)),
            decreases CLASS_COUNT - i,
        {
            let ghost before = self@;
            let mut part = self.pool_cleanup(i);
            let ghost prev = released@;
            released.append(&mut part);
            proof {
                lemma_index_class(i as nat);
                let b = class_at(i as nat).unwrap();
                assert(before.pools[i as int] == start.pools[i as int]);
                assert(start.pools.subrange(0, i + 1).drop_last() =~= start.pools.subrange(0, i as int));
                assert(start.pools.subrange(0, i + 1).last() == start.pools[i as int]);
                assert(released@ =~= released_all(start.pools.subrange(0, i + 1)));
                match before.pools[i as int] {
                    Some(p) => {
                        assert(before.pool(b) == Some(p));
                        lemma_with_pool_wf(before, b, p.after_cleanup());
                        assert(self@.pools =~= before.with_pool(b, p.after_cleanup()).pools);
                    },
                    None => {
                        assert(self@.pools =~= before.pools);
                    },
                }
            }
            i = i + 1;
        }
        proof {
            assert(start.pools.subrange(0, CLASS_COUNT as int) =~= start.pools);
            assert(self@.pools =~= cleaned(start.pools));
        }
        released
    }
}

/// In every well-formed manager, which every step keeps well formed, the
/// blocks that a pool has taken from the system never outnumber the
/// capacity configured for its class.
pub proof fn lemma_system_count_within_capacity(m: ManagerState, b: BlockSize)
    requires
        m.wf(),
    ensures
        m.config.capacity(b) is Some ==> m.pool(b) is Some && m.pool(b).unwrap().allocated_count
            <= m.config.capacity(b).unwrap(),
        m.config.capacity(b) is None ==> m.pool(b) is None,
{
}

/// One step that a caller can take on a manager.
pub enum MemoryOp {
    /// `allocate` with a requested size.
    Allocate(usize),
    /// `complete_allocation` with the address that the system returned.
    Complete(usize),
    /// `deallocate` with an address and the size it was requested with.
    Deallocate(usize, usize),
}

/// The state after one step.
pub open spec fn apply_op(m: ManagerState, op: MemoryOp) -> ManagerState {
    match op {
        MemoryOp::Allocate(size) => m.allocate_step(size).0,
        MemoryOp::Complete(addr) => m.complete_step(addr).0,
        MemoryOp::Deallocate(ptr, size) => m.deallocate_step(ptr, size).0,
    }
}

/// The state after a sequence of steps, in order.
pub open spec fn apply_ops(m: ManagerState, ops: Seq<MemoryOp>) -> ManagerState
    decreases ops.len(),
{
    if ops.len() == 0 {
        m
    } else {
        apply_op(apply_ops(m, ops.drop_last()), ops.last())
    }
}

/// An allocation step keeps the manager well formed.
pub proof fn lemma_allocate_step_wf(m: ManagerState, size: usize)
    requires
        m.wf(),
    ensures
        m.allocate_step(size).0.wf(),
{
    if size != 0 {
        if let Some(b) = class_for(size as nat) {
            if let Some(p) = m.pool(b) {
                lemma_with_pool_wf(m, b, p.after_allocate());
            }
        }
    }
}

/// Settling an allocation keeps the manager well formed.
pub proof fn lemma_complete_step_wf(m: ManagerState, addr: usize)
    requires
        m.wf(),
    ensures
        m.complete_step(addr).0.wf(),
{
    if let PendingAlloc::Pooled { block_size } = m.pending {
        lemma_with_pool_wf(m, block_size, m.pool(block_size).unwrap().after_confirm(addr != 0));
    }
}

/// Any sequence of steps keeps the manager well formed.
pub proof fn lemma_apply_ops_wf(m: ManagerState, ops: Seq<MemoryOp>)
    requires
        m.wf(),
    ensures
        apply_ops(m, ops).wf(),
    decreases ops.len(),
{
    if ops.len() > 0 {
        let prev = apply_ops(m, ops.drop_last());
        lemma_apply_ops_wf(m, ops.drop_last());
        match ops.last() {
            MemoryOp::Allocate(size) => lemma_allocate_step_wf(prev, size),
            MemoryOp::Complete(addr) => lemma_complete_step_wf(prev, addr),
            MemoryOp::Deallocate(ptr, size) => lemma_deallocate_keeps_free_lists_typed(prev, ptr, size),
        }
    }
}

/// Whatever sequence of allocations, completions and deallocations runs on
/// a well-formed manager, every class with capacity N keeps a pool whose
/// count of blocks taken from the system never exceeds N.
pub proof fn lemma_capacity_holds_over_any_steps(m: ManagerState, ops: Seq<MemoryOp>, b: BlockSize)
    requires
        m.wf(),
    ensures
        m.config.capacity(b) is Some ==> apply_ops(m, ops).pool(b) is Some && apply_ops(
            m,
            ops,
        ).pool(b).unwrap().allocated_count <= m.config.capacity(b).unwrap(),
        apply_ops(m, ops).config == m.config,
{
    lemma_apply_ops_wf(m, ops);
    lemma_config_kept(m, ops);
    lemma_system_count_within_capacity(apply_ops(m, ops), b);
}

/// No step changes the configuration.
proof fn lemma_config_kept(m: ManagerState, ops: Seq<MemoryOp>)
    ensures
        apply_ops(m, ops).config == m.config,
    decreases ops.len(),
{
    if ops.len() > 0 {
        lemma_config_kept(m, ops.drop_last());
    }
}

/// Every block that the system is asked for on behalf of a class with a
/// pool has that class's full size, whether it is a fresh pool block or a
/// direct fallback. So a block given back with its requested size, which
/// routes it to that pool, is never shorter than the blocks the pool hands
/// out and zeroes.
pub proof fn lemma_pool_class_blocks_are_full_size(m: ManagerState, size: usize, addr: usize)
    requires
        m.wf(),
    ensures
        class_for(size as nat) matches Some(b) ==> m.pool(b) is Some ==> (m.allocate_step(
            size,
        ).1 matches AllocStep::System { size: n } ==> n == class_bytes(b)),
        class_for(size as nat) matches Some(b) ==> m.pool(b) is Some ==> (m.allocate_step(
            size,
        ).0.pending matches PendingAlloc::Direct { size: n } ==> n == class_bytes(b)),
        m.pending matches PendingAlloc::Pooled { block_size } ==> (m.complete_step(addr).1 matches AllocStep::System {
            size: n,
        } ==> n == class_bytes(block_size)),
        m.pending matches PendingAlloc::Pooled { block_size } ==> (m.complete_step(addr).0.pending matches PendingAlloc::Direct {
            size: n,
        } ==> n == class_bytes(block_size)),
{
}

/// A deallocation with any size, also one that maps to another class than
/// the block came from, keeps every free list holding only blocks tagged
/// with its own class, and records no class mismatch.
pub proof fn lemma_deallocate_keeps_free_lists_typed(m: ManagerState, ptr: usize, size: usize)
    requires
        m.wf(),
    ensures
        m.deallocate_step(ptr, size).0.wf(),
        forall|b: BlockSize, i: int|
            #![trigger m.deallocate_step(ptr, size).0.pool(b), (m.deallocate_step(ptr, size).0.pool(b)).unwrap().free_blocks[i]]
            m.deallocate_step(ptr, size).0.pool(b) is Some && 0 <= i < m.deallocate_step(
                ptr,
                size,
            ).0.pool(b).unwrap().free_blocks.len() ==> m.deallocate_step(ptr, size).0.pool(
                b,
            ).unwrap().free_blocks[i].block_size == b,
        forall|b: BlockSize|
            #![trigger m.deallocate_step(ptr, size).0.pool(b)]
            m.pool(b) is Some ==> m.deallocate_step(ptr, size).0.pool(b) is Some
                && m.deallocate_step(ptr, size).0.pool(b).unwrap().type_mismatches == m.pool(
                b,
            ).unwrap().type_mismatches,
{
    let n = m.deallocate_step(ptr, size).0;
    if ptr != 0 {
        if let Some(b) = class_for(size as nat) {
            if let Some(p) = m.pool(b) {
                if p.accepts(ptr) {
                    lemma_with_pool_wf(m, b, p.after_accept(ptr));
                }
            }
        }
    }
    assert forall|b: BlockSize, i: int|
        n.pool(b) is Some && 0 <= i < n.pool(b).unwrap().free_blocks.len() implies #[trigger] n.pool(b).unwrap().free_blocks[i].block_size == b by {
        assert(n.pools[class_index(b) as int] == n.pool(b));
    }
}

/// A block that an allocation recycles comes from the head of the free list
/// of the class that the request maps to, and carries that class's tag.
pub proof fn lemma_reuse_stays_in_class(m: ManagerState, size: usize)
    requires
        m.wf(),
        m.allocate_step(size).1 is Zero,
    ensures
        class_for(size as nat) matches Some(b) && m.pool(b) matches Some(p)
            && p.free_blocks.len() > 0 && p.free_blocks[0] == (TypedPointer {
            ptr: m.allocate_step(size).1->addr,
            block_size: b,
        }) && m.allocate_step(size).1->len == class_bytes(b),
{
    let b = class_for(size as nat).unwrap();
    let p = m.pool(b).unwrap();
    assert(m.pools[class_index(b) as int] == m.pool(b));
}

/// The process-wide manager slot: empty until the first initialisation, then
/// holding one manager for good.
pub struct MemoryManagerCell {
    manager: Option<DartMemoryManager>,
}

impl View for MemoryManagerCell {
    type V = Option<ManagerState>;

    closed spec fn view(&self) -> Option<ManagerState> {
        match self.manager {
            Some(m) => Some(m@),
            None => None,
        }
    }
}

impl MemoryManagerCell {
    /// An empty slot.
    pub fn new() -> (r: MemoryManagerCell)
        ensures
            r@ is None,
    {
        MemoryManagerCell { manager: None }
    }

    /// The slot's invariant: a manager it holds is well formed.
    pub open spec fn wf(self) -> bool {
        self@ matches Some(m) ==> m.wf()
    }
}

/// Initialises the manager with the default configuration; true.
/// An already initialised manager is kept as it is.
pub fn initialize_memory_manager(cell: &mut MemoryManagerCell) -> (r: bool)
    requires
        old(cell).wf(),
    ensures
        final(cell).wf(),
        r,
        old(cell)@ is Some ==> final(cell)@ == old(cell)@,
        old(cell)@ is None ==> final(cell)@ == Some(ManagerState::initial(PoolConfig::defaults())),
{
    if is_memory_manager_available(cell) {
        return true;
    }
    initialize_memory_manager_with_config(cell, PoolConfig::new())
}

/// Initialises the manager with `config`; true. An already initialised
/// manager is kept as it is and `config` is ignored.
pub fn initialize_memory_manager_with_config(cell: &mut MemoryManagerCell, config: PoolConfig) -> (r: bool)
    requires
        old(cell).wf(),
    ensures
        final(cell).wf(),
        r,
        old(cell)@ is Some ==> final(cell)@ == old(cell)@,
        old(cell)@ is None ==> final(cell)@ == Some(ManagerState::initial(config)),
{
    if is_memory_manager_available(cell) {
        return true;
    }
    cell.manager = Some(DartMemoryManager::with_config(config));
    true
}

/// Empties every pool of an initialised manager and returns the addresses
/// that the caller gives back to the system; none if never initialised.
pub fn destroy_memory_manager(cell: &mut MemoryManagerCell) -> (r: Option<Vec<usize>>)
    requires
        old(cell).wf(),
    ensures
        final(cell).wf(),
        old(cell)@ is None ==> r is None && final(cell)@ is None,
        old(cell)@ matches Some(m) ==> r matches Some(v) && v@ == released_all(m.pools)
            && final(cell)@ == Some(
            ManagerState { pools: cleaned(m.pools), pending: PendingAlloc::Idle, ..m },
        ),
{
    match &mut cell.manager {
        Some(manager) => Some(manager.cleanup()),
        None => None,
    }
}

/// Whether the manager is initialised.
pub fn is_memory_manager_available(cell: &MemoryManagerCell) -> (r: bool)
    ensures
        r == cell@ is Some,
{
    cell.manager.is_some()
}

/// Starts an allocation of `size` bytes, initialising the manager with the
/// default configuration first if needed.
pub fn allocate(cell: &mut MemoryManagerCell, size: usize) -> (r: AllocStep)
    requires
        old(cell).wf(),
    ensures
        final(cell).wf(),
        old(cell)@ matches Some(m) ==> final(cell)@ == Some(m.allocate_step(size).0)
            && r == m.allocate_step(size).1,
        old(cell)@ is None ==> final(cell)@ == Some(
            ManagerState::initial(PoolConfig::defaults()).allocate_step(size).0,
        ) && r == ManagerState::initial(PoolConfig::defaults()).allocate_step(size).1,
{
    if cell.manager.is_none() {
        cell.manager = Some(DartMemoryManager::new());
    }
    match &mut cell.manager {
        Some(manager) => manager.allocate(size),
        None => AllocStep::System { size },
    }
}

/// Continues an allocation with the address that the system returned.
/// Without a manager the address is handed back unchanged.
pub fn complete_allocation(cell: &mut MemoryManagerCell, addr: usize) -> (r: AllocStep)
    requires
        old(cell).wf(),
    ensures
        final(cell).wf(),
        old(cell)@ matches Some(m) ==> final(cell)@ == Some(m.complete_step(addr).0)
            && r == m.complete_step(addr).1,
        old(cell)@ is None ==> final(cell)@ is None && r == AllocStep::Ready(addr),
{
    match &mut cell.manager {
        Some(manager) => manager.complete_allocation(addr),
        None => AllocStep::Ready(addr),
    }
}

/// Takes back the block at `ptr` allocated with `size` bytes; true when the
/// caller must give it to the system. Null is ignored; otherwise the manager
/// is first initialised with the default configuration if needed.
pub fn deallocate(cell: &mut MemoryManagerCell, ptr: usize, size: usize) -> (r: bool)
    requires
        old(cell).wf(),
    ensures
        final(cell).wf(),
        ptr == 0 ==> !r && final(cell)@ == old(cell)@,
        ptr != 0 ==> (old(cell)@ matches Some(m) ==> final(cell)@ == Some(
            m.deallocate_step(ptr, size).0,
        ) && r == m.deallocate_step(ptr, size).1),
        ptr != 0 && old(cell)@ is None ==> final(cell)@ == Some(
            ManagerState::initial(PoolConfig::defaults()).deallocate_step(ptr, size).0,
        ) && r == ManagerState::initial(PoolConfig::defaults()).deallocate_step(ptr, size).1,
{
    if ptr == 0 {
        return false;
    }
    if cell.manager.is_none() {
        cell.manager = Some(DartMemoryManager::new());
    }
    match &mut cell.manager {
        Some(manager) => manager.deallocate(ptr, size),
        None => true,
    }
}

/// The statistics of an initialised manager; none otherwise.
pub fn memory_stats(cell: &MemoryManagerCell) -> (r: Option<MemoryStats>)
    requires
        cell.wf(),
    ensures
        cell@ is None ==> r is None,
        cell@ matches Some(m) ==> r matches Some(st) && st.pool_stats@ == pool_stats_of(m.pools)
            && st.pool_hits == sum_hits(pool_stats_of(m.pools)) && st.pool_misses == sum_misses(
            pool_stats_of(m.pools),
        ) && st.total_type_mismatches == sum_mismatches(pool_stats_of(m.pools))
            && st.direct_allocs == m.stats.direct_allocs && st.total_allocated
            == m.stats.total_allocated_bytes && st.total_allocation_requests
            == m.stats.allocation_requests,
{
    match &cell.manager {
        Some(manager) => Some(manager.stats()),
        None => None,
    }
}

} // verus!
