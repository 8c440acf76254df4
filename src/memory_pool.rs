//! Size classes, pool configuration and the per-class recycling pool.
use crossbeam_queue::SegQueue;
use vstd::prelude::*;

verus! {

/// An event counter: one more, wrapping to zero past the largest value.
pub open spec fn bump(x: u64) -> u64 {
    if x == u64::MAX {
        0
    } else {
        (x + 1) as u64
    }
}

/// A byte total: `n` more, wrapping modulo 2^64.
pub open spec fn add_wrapping(x: u64, n: u64) -> u64 {
    if x + n <= u64::MAX {
        (x + n) as u64
    } else {
        (x + n - 0x1_0000_0000_0000_0000) as u64
    }
}

/// Adds one to an event counter.
pub fn bump_counter(x: u64) -> (r: u64)
    ensures
        r == bump(x),
{
    if x == u64::MAX {
        0
    } else {
        x + 1
    }
}

/// Adds `n` to a byte total, wrapping modulo 2^64.
pub fn add_counter(x: u64, n: u64) -> (r: u64)
    ensures
        r == add_wrapping(x, n),
{
    if x <= u64::MAX - n {
        x + n
    } else {
        n - (u64::MAX - x) - 1
    }
}

/// The fixed, ordered set of block sizes that the pools recycle.
#[derive(Debug, Clone, Copy, PartialEq, Eq, Structural, Hash)]
pub enum BlockSize {
    Tiny,
    Small,
    Medium,
    Large,
    Huge,
    XLarge,
}

/// Number of bytes in a block of the given class.
pub open spec fn class_bytes(b: BlockSize) -> nat {
    match b {
        BlockSize::Tiny => 32,
        BlockSize::Small => 128,
        BlockSize::Medium => 512,
        BlockSize::Large => 4096,
        BlockSize::Huge => 16384,
        BlockSize::XLarge => 65536,
    }
}

/// Position of a class in the ordered set of classes.
pub open spec fn class_index(b: BlockSize) -> nat {
    match b {
        BlockSize::Tiny => 0,
        BlockSize::Small => 1,
        BlockSize::Medium => 2,
        BlockSize::Large => 3,
        BlockSize::Huge => 4,
        BlockSize::XLarge => 5,
    }
}

/// The smallest class whose blocks hold `size` bytes; none for zero and for
/// requests above the largest class.
pub open spec fn class_for(size: nat) -> Option<BlockSize> {
    if size == 0 {
        None
    } else if size <= 32 {
        Some(BlockSize::Tiny)
    } else if size <= 128 {
        Some(BlockSize::Small)
    } else if size <= 512 {
        Some(BlockSize::Medium)
    } else if size <= 4096 {
        Some(BlockSize::Large)
    } else if size <= 16384 {
        Some(BlockSize::Huge)
    } else if size <= 65536 {
        Some(BlockSize::XLarge)
    } else {
        None
    }
}

/// The class at a position of the ordered set, if there is one.
pub open spec fn class_at(index: nat) -> Option<BlockSize> {
    if index == 0 {
        Some(BlockSize::Tiny)
    } else if index == 1 {
        Some(BlockSize::Small)
    } else if index == 2 {
        Some(BlockSize::Medium)
    } else if index == 3 {
        Some(BlockSize::Large)
    } else if index == 4 {
        Some(BlockSize::Huge)
    } else if index == 5 {
        Some(BlockSize::XLarge)
    } else {
        None
    }
}

/// Number of size classes.
pub const CLASS_COUNT: usize = 6;

impl BlockSize {
    /// Selects the smallest class that holds `size` bytes.
    pub fn for_size(size: usize) -> (r: Option<BlockSize>)
        ensures
            r == class_for(size as nat),
    {
        if size == 0 {
            None
        } else if size <= 32 {
            Some(BlockSize::Tiny)
        } else if size <= 128 {
            Some(BlockSize::Small)
        } else if size <= 512 {
            Some(BlockSize::Medium)
        } else if size <= 4096 {
            Some(BlockSize::Large)
        } else if size <= 16384 {
            Some(BlockSize::Huge)
        } else if size <= 65536 {
            Some(BlockSize::XLarge)
        } else {
            None
        }
    }

    /// Number of bytes in a block of this class.
    pub fn as_usize(self) -> (r: usize)
        ensures
            r as nat == class_bytes(self),
    {
        match self {
            BlockSize::Tiny => 32,
            BlockSize::Small => 128,
            BlockSize::Medium => 512,
            BlockSize::Large => 4096,
            BlockSize::Huge => 16384,
            BlockSize::XLarge => 65536,
        }
    }

    /// Position of this class in the pool array.
    pub fn pool_index(self) -> (r: usize)
        ensures
            r as nat == class_index(self),
            r < CLASS_COUNT,
    {
        match self {
            BlockSize::Tiny => 0,
            BlockSize::Small => 1,
            BlockSize::Medium => 2,
            BlockSize::Large => 3,
            BlockSize::Huge => 4,
            BlockSize::XLarge => 5,
        }
    }

    /// The class at a position of the pool array.
    pub fn from_index(index: usize) -> (r: Option<BlockSize>)
        ensures
            r == class_at(index as nat),
    {
        match index {
            0 => Some(BlockSize::Tiny),
            1 => Some(BlockSize::Small),
            2 => Some(BlockSize::Medium),
            3 => Some(BlockSize::Large),
            4 => Some(BlockSize::Huge),
            5 => Some(BlockSize::XLarge),
            _ => None,
        }
    }
}

/// A class maps to its index and back.
pub proof fn lemma_class_index_round_trip(b: BlockSize)
    ensures
        class_at(class_index(b)) == Some(b),
        class_index(b) < CLASS_COUNT,
{
}

/// Every request size that a class serves fits in a block of that class, and
/// no smaller class would hold it.
pub proof fn lemma_class_for_fits(size: nat)
    ensures
        class_for(size) matches Some(b) ==> size <= class_bytes(b),
        class_for(size) matches Some(b) ==> class_index(b) > 0 ==> size > class_bytes(
            class_at((class_index(b) - 1) as nat).unwrap(),
        ),
        class_for(size) is None ==> size == 0 || size > 65536,
{
}

/// Per-class capacities of the pools. `None` takes the class's default
/// capacity and `Some(0)` disables the class.
#[derive(Debug, Clone, Copy, PartialEq, Eq, Structural)]
pub struct PoolConfig {
    pub tiny_pool_size: Option<usize>,
    pub small_pool_size: Option<usize>,
    pub medium_pool_size: Option<usize>,
    pub large_pool_size: Option<usize>,
    pub huge_pool_size: Option<usize>,
    pub xlarge_pool_size: Option<usize>,
}

/// The capacity that a setting gives: the default when unset, none when zero.
pub open spec fn capacity_from(setting: Option<usize>, default: usize) -> Option<usize> {
    match setting {
        Some(n) => if n == 0 {
            None
        } else {
            Some(n)
        },
        None => Some(default),
    }
}

fn resolve_capacity(setting: Option<usize>, default: usize) -> (r: Option<usize>)
    ensures
        r == capacity_from(setting, default),
{
    match setting {
        Some(n) => if n == 0 {
            None
        } else {
            Some(n)
        },
        None => Some(default),
    }
}

impl PoolConfig {
    /// The setting that the configuration holds for a class.
    pub open spec fn setting(self, b: BlockSize) -> Option<usize> {
        match b {
            BlockSize::Tiny => self.tiny_pool_size,
            BlockSize::Small => self.small_pool_size,
            BlockSize::Medium => self.medium_pool_size,
            BlockSize::Large => self.large_pool_size,
            BlockSize::Huge => self.huge_pool_size,
            BlockSize::XLarge => self.xlarge_pool_size,
        }
    }

    /// The capacity of a class: its setting, or its default of 20 (32 B,
    /// 128 B, 512 B), 10 (4 KB, 16 KB) or 5 (64 KB) blocks; none if disabled.
    pub open spec fn capacity(self, b: BlockSize) -> Option<usize> {
        capacity_from(
            self.setting(b),
            match b {
                BlockSize::Tiny => 20,
                BlockSize::Small => 20,
                BlockSize::Medium => 20,
                BlockSize::Large => 10,
                BlockSize::Huge => 10,
                BlockSize::XLarge => 5,
            },
        )
    }

    /// The configuration with no class set.
    pub open spec fn defaults() -> PoolConfig {
        PoolConfig {
            tiny_pool_size: None,
            small_pool_size: None,
            medium_pool_size: None,
            large_pool_size: None,
            huge_pool_size: None,
            xlarge_pool_size: None,
        }
    }

    /// A configuration with every class at its default.
    pub fn new() -> (r: PoolConfig)
        ensures
            r == PoolConfig::defaults(),
    {
        PoolConfig {
            tiny_pool_size: None,
            small_pool_size: None,
            medium_pool_size: None,
            large_pool_size: None,
            huge_pool_size: None,
            xlarge_pool_size: None,
        }
    }

    /// Sets the 32 B class's capacity.
    pub fn tiny_pool_size(self, size: usize) -> (r: PoolConfig)
        ensures
            r == (PoolConfig { tiny_pool_size: Some(size), ..self }),
    {
        PoolConfig { tiny_pool_size: Some(size), ..self }
    }

    /// Sets the 128 B class's capacity.
    pub fn small_pool_size(self, size: usize) -> (r: PoolConfig)
        ensures
            r == (PoolConfig { small_pool_size: Some(size), ..self }),
    {
        PoolConfig { small_pool_size: Some(size), ..self }
    }

    /// Sets the 512 B class's capacity.
    pub fn medium_pool_size(self, size: usize) -> (r: PoolConfig)
        ensures
            r == (PoolConfig { medium_pool_size: Some(size), ..self }),
    {
        PoolConfig { medium_pool_size: Some(size), ..self }
    }

    /// Sets the 4 KB class's capacity.
    pub fn large_pool_size(self, size: usize) -> (r: PoolConfig)
        ensures
            r == (PoolConfig { large_pool_size: Some(size), ..self }),
    {
        PoolConfig { large_pool_size: Some(size), ..self }
    }

    /// Sets the 16 KB class's capacity.
    pub fn huge_pool_size(self, size: usize) -> (r: PoolConfig)
        ensures
            r == (PoolConfig { huge_pool_size: Some(size), ..self }),
    {
        PoolConfig { huge_pool_size: Some(size), ..self }
    }

    /// Sets the 64 KB class's capacity.
    pub fn xlarge_pool_size(self, size: usize) -> (r: PoolConfig)
        ensures
            r == (PoolConfig { xlarge_pool_size: Some(size), ..self }),
    {
        PoolConfig { xlarge_pool_size: Some(size), ..self }
    }

    /// Capacity of the 32 B class.
    pub fn get_tiny_pool_size(&self) -> (r: Option<usize>)
        ensures
            r == self.capacity(BlockSize::Tiny),
    {
        resolve_capacity(self.tiny_pool_size, 20)
    }

    /// Capacity of the 128 B class.
    pub fn get_small_pool_size(&self) -> (r: Option<usize>)
        ensures
            r == self.capacity(BlockSize::Small),
    {
        resolve_capacity(self.small_pool_size, 20)
    }

    /// Capacity of the 512 B class.
    pub fn get_medium_pool_size(&self) -> (r: Option<usize>)
        ensures
            r == self.capacity(BlockSize::Medium),
    {
        resolve_capacity(self.medium_pool_size, 20)
    }

    /// Capacity of the 4 KB class.
    pub fn get_large_pool_size(&self) -> (r: Option<usize>)
        ensures
            r == self.capacity(BlockSize::Large),
    {
        resolve_capacity(self.large_pool_size, 10)
    }

    /// Capacity of the 16 KB class.
    pub fn get_huge_pool_size(&self) -> (r: Option<usize>)
        ensures
            r == self.capacity(BlockSize::Huge),
    {
        resolve_capacity(self.huge_pool_size, 10)
    }

    /// Capacity of the 64 KB class.
    pub fn get_xlarge_pool_size(&self) -> (r: Option<usize>)
        ensures
            r == self.capacity(BlockSize::XLarge),
    {
        resolve_capacity(self.xlarge_pool_size, 5)
    }

    /// Capacity of any class.
    pub fn capacity_for(&self, b: BlockSize) -> (r: Option<usize>)
        ensures
            r == self.capacity(b),
    {
        match b {
            BlockSize::Tiny => self.get_tiny_pool_size(),
            BlockSize::Small => self.get_small_pool_size(),
            BlockSize::Medium => self.get_medium_pool_size(),
            BlockSize::Large => self.get_large_pool_size(),
            BlockSize::Huge => self.get_huge_pool_size(),
            BlockSize::XLarge => self.get_xlarge_pool_size(),
        }
    }

    /// Whether the 32 B class is pooled.
    pub fn is_tiny_pool_enabled(&self) -> (r: bool)
        ensures
            r == self.capacity(BlockSize::Tiny) is Some,
    {
        self.get_tiny_pool_size().is_some()
    }

    /// Whether the 128 B class is pooled.
    pub fn is_small_pool_enabled(&self) -> (r: bool)
        ensures
            r == self.capacity(BlockSize::Small) is Some,
    {
        self.get_small_pool_size().is_some()
    }

    /// Whether the 512 B class is pooled.
    pub fn is_medium_pool_enabled(&self) -> (r: bool)
        ensures
            r == self.capacity(BlockSize::Medium) is Some,
    {
        self.get_medium_pool_size().is_some()
    }

    /// Whether the 4 KB class is pooled.
    pub fn is_large_pool_enabled(&self) -> (r: bool)
        ensures
            r == self.capacity(BlockSize::Large) is Some,
    {
        self.get_large_pool_size().is_some()
    }

    /// Whether the 16 KB class is pooled.
    pub fn is_huge_pool_enabled(&self) -> (r: bool)
        ensures
            r == self.capacity(BlockSize::Huge) is Some,
    {
        self.get_huge_pool_size().is_some()
    }

    /// Whether the 64 KB class is pooled.
    pub fn is_xlarge_pool_enabled(&self) -> (r: bool)
        ensures
            r == self.capacity(BlockSize::XLarge) is Some,
    {
        self.get_xlarge_pool_size().is_some()
    }
}

/// A free block's address, tagged with the class it was carved from.
#[derive(Debug, Clone, Copy)]
pub struct TypedPointer {
    pub ptr: usize,
    pub block_size: BlockSize,
}

impl TypedPointer {
    /// Tags an address with a class.
    pub fn new(ptr: usize, block_size: BlockSize) -> (r: TypedPointer)
        ensures
            r == (TypedPointer { ptr, block_size }),
    {
        TypedPointer { ptr, block_size }
    }

    /// Whether the block may be handed out by the pool of `expected_block_size`.
    pub fn is_valid_for_pool(&self, expected_block_size: BlockSize) -> (r: bool)
        ensures
            r == (self.block_size == expected_block_size && self.ptr != 0),
    {
        self.block_size == expected_block_size && self.ptr != 0
    }

    /// The block's address.
    pub fn get_ptr(self) -> (r: usize)
        ensures
            r == self.ptr,
    {
        self.ptr
    }
}

/// crossbeam's unbounded lock-free queue, which holds each pool's free list.
/// The pool owns it exclusively, so only its `&mut` operations are used.
#[verifier::external_type_specification]
#[verifier::external_body]
#[verifier::reject_recursive_types(T)]
pub struct ExSegQueue<T>(SegQueue<T>);

/// The blocks that a free list holds, from the next to leave to the last to arrive.
pub uninterp spec fn free_list_items(q: SegQueue<TypedPointer>) -> Seq<TypedPointer>;

/// Relies on `SegQueue::new`: a new queue holds nothing.
#[verifier::external_body]
fn free_list_new() -> (q: SegQueue<TypedPointer>)
    ensures
        free_list_items(q) == Seq::<TypedPointer>::empty(),
{
    SegQueue::new()
}

/// Relies on `SegQueue::push_mut`: the item joins the tail.
#[verifier::external_body]
fn free_list_push(q: &mut SegQueue<TypedPointer>, item: TypedPointer)
    ensures
        free_list_items(*final(q)) == free_list_items(*old(q)).push(item),
{
    q.push_mut(item)
}

/// Relies on `SegQueue::pop_mut`: the head leaves; nothing when empty.
#[verifier::external_body]
fn free_list_pop(q: &mut SegQueue<TypedPointer>) -> (r: Option<TypedPointer>)
    ensures
        free_list_items(*old(q)).len() == 0 ==> r is None && free_list_items(*final(q))
            == free_list_items(*old(q)),
        free_list_items(*old(q)).len() > 0 ==> r == Some(free_list_items(*old(q))[0])
            && free_list_items(*final(q)) == free_list_items(*old(q)).drop_first(),
{
    q.pop_mut()
}

/// Relies on `SegQueue::len`: the number of items held.
#[verifier::external_body]
fn free_list_len(q: &SegQueue<TypedPointer>) -> (r: usize)
    ensures
        r == free_list_items(*q).len(),
{
    q.len()
}


/// What a pool holds, as plain values.
pub struct PoolState {
    pub block_size: BlockSize,
    pub free_blocks: Seq<TypedPointer>,
    pub allocated_count: nat,
    pub max_pool_size: nat,
    pub pool_allocations: u64,
    pub pool_deallocations: u64,
    pub pool_hits: u64,
    pub pool_misses: u64,
    pub type_mismatches: u64,
}

/// What a pool's allocation step grants.
#[derive(Debug, Clone, Copy, PartialEq, Eq, Structural)]
pub enum PoolGrant {
    /// A recycled block at this address; its bytes still need zeroing.
    Reused(usize),
    /// A slot under the capacity is reserved: the caller obtains a fresh zeroed
    /// block from the system and reports with `confirm_reservation`.
    Reserved,
    /// The pool cannot serve the request (a pool miss).
    Refused,
}

/// A recycling pool for one size class.
pub struct TypeSafeMemoryPool {
    block_size: BlockSize,
    free_blocks: SegQueue<TypedPointer>,
    allocated_count: usize,
    max_pool_size: usize,
    pool_allocations: u64,
    pool_deallocations: u64,
    pool_hits: u64,
    pool_misses: u64,
    type_mismatches: u64,
}

/// A snapshot of one pool's counters.
#[derive(Debug, Clone, Copy)]
pub struct PoolStats {
    pub block_size: BlockSize,
    pub allocated_count: usize,
    pub free_count: usize,
    pub max_pool_size: usize,
    pub pool_allocations: u64,
    pub pool_deallocations: u64,
    pub pool_hits: u64,
    pub pool_misses: u64,
    pub type_mismatches: u64,
}

impl PoolStats {
    /// The snapshot of a pool in state `s`.
    pub open spec fn of(s: PoolState) -> PoolStats {
        PoolStats {
            block_size: s.block_size,
            allocated_count: s.allocated_count as usize,
            free_count: s.free_blocks.len() as usize,
            max_pool_size: s.max_pool_size as usize,
            pool_allocations: s.pool_allocations,
            pool_deallocations: s.pool_deallocations,
            pool_hits: s.pool_hits,
            pool_misses: s.pool_misses,
            type_mismatches: s.type_mismatches,
        }
    }

    /// The snapshot that stands for a disabled class.
    pub open spec fn disabled(b: BlockSize) -> PoolStats {
        PoolStats {
            block_size: b,
            allocated_count: 0,
            free_count: 0,
            max_pool_size: 0,
            pool_allocations: 0,
            pool_deallocations: 0,
            pool_hits: 0,
            pool_misses: 0,
            type_mismatches: 0,
        }
    }
}

impl View for TypeSafeMemoryPool {
    type V = PoolState;

    closed spec fn view(&self) -> PoolState {
        PoolState {
            block_size: self.block_size,
            free_blocks: free_list_items(self.free_blocks),
            allocated_count: self.allocated_count as nat,
            max_pool_size: self.max_pool_size as nat,
            pool_allocations: self.pool_allocations,
            pool_deallocations: self.pool_deallocations,
            pool_hits: self.pool_hits,
            pool_misses: self.pool_misses,
            type_mismatches: self.type_mismatches,
        }
    }
}

impl PoolState {
    /// A new pool of class `b` with capacity `max`.
    pub open spec fn fresh(b: BlockSize, max: usize) -> PoolState {
        PoolState {
            block_size: b,
            free_blocks: Seq::empty(),
            allocated_count: 0,
            max_pool_size: max as nat,
            pool_allocations: 0,
            pool_deallocations: 0,
            pool_hits: 0,
            pool_misses: 0,
            type_mismatches: 0,
        }
    }

    /// What an allocation step grants in this state.
    pub open spec fn grant(self) -> PoolGrant {
        if self.free_blocks.len() > 0 {
            PoolGrant::Reused(self.free_blocks[0].ptr)
        } else if self.allocated_count < self.max_pool_size {
            PoolGrant::Reserved
        } else {
            PoolGrant::Refused
        }
    }

    /// The state after an allocation step.
    pub open spec fn after_allocate(self) -> PoolState {
        let s = PoolState { pool_allocations: bump(self.pool_allocations), ..self };
        if self.free_blocks.len() > 0 {
            PoolState {
                free_blocks: self.free_blocks.drop_first(),
                pool_hits: bump(self.pool_hits),
                ..s
            }
        } else if self.allocated_count < self.max_pool_size {
            PoolState { allocated_count: self.allocated_count + 1, ..s }
        } else {
            PoolState { pool_misses: bump(self.pool_misses), ..s }
        }
    }

    /// The state after a reservation is settled.
    pub open spec fn after_confirm(self, obtained: bool) -> PoolState {
        if obtained {
            PoolState { pool_hits: bump(self.pool_hits), ..self }
        } else {
            PoolState {
                allocated_count: (self.allocated_count - 1) as nat,
                pool_misses: bump(self.pool_misses),
                ..self
            }
        }
    }

    /// Whether a block offered back is kept.
    pub open spec fn accepts(self, ptr: usize) -> bool {
        ptr != 0 && self.free_blocks.len() < self.max_pool_size
    }

    /// The state after a block is kept.
    pub open spec fn after_accept(self, ptr: usize) -> PoolState {
        PoolState {
            free_blocks: self.free_blocks.push(TypedPointer { ptr, block_size: self.block_size }),
            pool_deallocations: bump(self.pool_deallocations),
            ..self
        }
    }

    /// The state after the free list is emptied back to the system.
    pub open spec fn after_cleanup(self) -> PoolState {
        PoolState {
            free_blocks: Seq::empty(),
            allocated_count: if self.allocated_count >= self.free_blocks.len() {
                (self.allocated_count - self.free_blocks.len()) as nat
            } else {
                0
            },
            ..self
        }
    }

    /// The addresses that emptying the free list hands back.
    pub open spec fn released(self) -> Seq<usize> {
        self.free_blocks.map_values(|t: TypedPointer| t.ptr)
    }

    /// The pool's invariant: the system count stays within capacity, the free
    /// list stays within capacity, and every free block is non-null and
    /// tagged with this pool's class. The tag records the class that the
    /// block was given back under; that the block really has the class's
    /// size rests on callers giving a block back with the size they
    /// requested, which the manager answers with class-sized blocks.
    pub open spec fn wf(self) -> bool {
        &&& self.allocated_count <= self.max_pool_size
        &&& self.free_blocks.len() <= self.max_pool_size
        &&& self.max_pool_size <= usize::MAX
        &&& forall|i: int|
            0 <= i < self.free_blocks.len() ==> (#[trigger] self.free_blocks[i]).block_size
                == self.block_size && self.free_blocks[i].ptr != 0
    }
}

impl TypeSafeMemoryPool {
    /// An empty pool for `block_size` that keeps up to `max_pool_size` blocks.
    pub fn new(block_size: BlockSize, max_pool_size: usize) -> (r: TypeSafeMemoryPool)
        ensures
            r@.wf(),
            r@ =~= PoolState::fresh(block_size, max_pool_size),
    {
        TypeSafeMemoryPool {
            block_size,
            free_blocks: free_list_new(),
            allocated_count: 0,
            max_pool_size,
            pool_allocations: 0,
            pool_deallocations: 0,
            pool_hits: 0,
            pool_misses: 0,
            type_mismatches: 0,
        }
    }

    /// One allocation step: hand out the oldest free block (a hit); else
    /// reserve a slot below capacity; else refuse (a miss).
    pub fn allocate(&mut self) -> (r: PoolGrant)
        requires
            old(self)@.wf(),
        ensures
            final(self)@.wf(),
            final(self)@ == old(self)@.after_allocate(),
            r == old(self)@.grant(),
    {
        self.pool_allocations = bump_counter(self.pool_allocations);
        match free_list_pop(&mut self.free_blocks) {
            Some(typed_ptr) => {
                if typed_ptr.is_valid_for_pool(self.block_size) {
                    self.pool_hits = bump_counter(self.pool_hits);
                    return PoolGrant::Reused(typed_ptr.get_ptr());
                } else {
                    // A block of another class on this list would be a
                    // corruption: count it and never hand it out. The
                    // invariant proves this branch unreachable; it stays as
                    // the defence that the counter reports on.
                    self.type_mismatches = bump_counter(self.type_mismatches);
                }
            },
            None => {},
        }
        if self.allocated_count < self.max_pool_size {
            self.allocated_count = self.allocated_count + 1;
            PoolGrant::Reserved
        } else {
            self.pool_misses = bump_counter(self.pool_misses);
            PoolGrant::Refused
        }
    }

    /// Settles a reservation: a block obtained from the system counts as a
    /// hit; a failed system allocation gives the slot back and counts a miss.
    pub fn confirm_reservation(&mut self, obtained: bool)
        requires
            old(self)@.wf(),
            old(self)@.allocated_count > 0,
        ensures
            final(self)@.wf(),
            final(self)@ == old(self)@.after_confirm(obtained),
    {
        if obtained {
            self.pool_hits = bump_counter(self.pool_hits);
        } else {
            self.allocated_count = self.allocated_count - 1;
            self.pool_misses = bump_counter(self.pool_misses);
        }
    }

    /// Offers a block back: accepted (tagged with this pool's class) unless the
    /// address is null or the free list is already at capacity.
    pub fn try_deallocate(&mut self, ptr: usize) -> (r: bool)
        requires
            old(self)@.wf(),
        ensures
            final(self)@.wf(),
            r == old(self)@.accepts(ptr),
            r ==> final(self)@ == old(self)@.after_accept(ptr),
            !r ==> final(self)@ == old(self)@,
    {
        if ptr == 0 {
            return false;
        }
        let current_free = free_list_len(&self.free_blocks);
        if current_free >= self.max_pool_size {
            return false;
        }
        self.pool_deallocations = bump_counter(self.pool_deallocations);
        let typed_ptr = TypedPointer::new(ptr, self.block_size);
        free_list_push(&mut self.free_blocks, typed_ptr);
        true
    }

    /// A snapshot of the counters.
    pub fn get_stats(&self) -> (r: PoolStats)
        requires
            self@.wf(),
        ensures
            r == PoolStats::of(self@),
    {
        PoolStats {
            block_size: self.block_size,
            allocated_count: self.allocated_count,
            free_count: free_list_len(&self.free_blocks),
            max_pool_size: self.max_pool_size,
            pool_allocations: self.pool_allocations,
            pool_deallocations: self.pool_deallocations,
            pool_hits: self.pool_hits,
            pool_misses: self.pool_misses,
            type_mismatches: self.type_mismatches,
        }
    }

    /// Empties the free list and returns the addresses, in list order, that
    /// the caller must give back to the system; each leaves the system count.
    pub fn cleanup(&mut self) -> (r: Vec<usize>)
        requires
            old(self)@.wf(),
        ensures
            final(self)@.wf(),
            r@ =~= old(self)@.released(),
            final(self)@ =~= old(self)@.after_cleanup(),
    {
        let ghost start = self@;
        let mut released: Vec<usize> = Vec::new();
        loop
            invariant
                self@.wf(),
                start.wf(),
                self@ == (PoolState {
                    free_blocks: self@.free_blocks,
                    allocated_count: self@.allocated_count,
                    ..start
                }),
                released@.len() + self@.free_blocks.len() == start.free_blocks.len(),
                self@.free_blocks == start.free_blocks.subrange(
                    released@.len() as int,
                    start.free_blocks.len() as int,
                ),
                released@ == start.free_blocks.subrange(0, released@.len() as int).map_values(
                    |t: TypedPointer| t.ptr,
                ),
                self@.allocated_count == if start.allocated_count >= released@.len() {
                    (start.allocated_count - released@.len()) as nat
                } else {
                    0
                },
            ensures
                self@.wf(),
                released@ =~= start.free_blocks.map_values(|t: TypedPointer| t.ptr),
                self@.free_blocks =~= Seq::<TypedPointer>::empty(),
                self@ == (PoolState {
                    free_blocks: self@.free_blocks,
                    allocated_count: self@.allocated_count,
                    ..start
                }),
                self@.allocated_count == if start.allocated_count >= start.free_blocks.len() {
                    (start.allocated_count - start.free_blocks.len()) as nat
                } else {
                    0
                },
            decreases self@.free_blocks.len(),
        {
            let ghost before = self@;
            match free_list_pop(&mut self.free_blocks) {
                Some(typed_ptr) => {
                    assert(typed_ptr == before.free_blocks[0]);
                    if typed_ptr.is_valid_for_pool(self.block_size) {
                        released.push(typed_ptr.get_ptr());
                        if self.allocated_count > 0 {
                            self.allocated_count = self.allocated_count - 1;
                        }
                    } else {
                        self.type_mismatches = bump_counter(self.type_mismatches);
                    }
                    assert(start.free_blocks.subrange(0, released@.len() as int) =~= start.free_blocks.subrange(0, released@.len() - 1).push(typed_ptr));
                    assert(self@.free_blocks =~= start.free_blocks.subrange(released@.len() as int, start.free_blocks.len() as int));
                },
                None => {
                    assert(released@.len() == start.free_blocks.len());
                    assert(start.free_blocks.subrange(0, released@.len() as int) =~= start.free_blocks);
                    assert(self@.free_blocks =~= Seq::<TypedPointer>::empty());
                    assert(released@ =~= start.free_blocks.map_values(|t: TypedPointer| t.ptr));
                    break;
                },
            }
        }
        released
    }
}

} // verus!
