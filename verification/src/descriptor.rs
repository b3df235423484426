//! Descriptor-set allocation: layouts, pools, block-growing allocators
//! and exclusive allocation sessions.
//!
//! A [`LinearPoolAllocator`] owns an ordered sequence of fixed-capacity
//! pools for one layout shape. Allocation `i` is always served by pool
//! `i / block_size`; a pool is appended lazily exactly when that index
//! does not yet exist, so growth is on demand, one pool at a time, and
//! never over-provisioned. A [`Pool`] guards its allocator with a lock;
//! [`Pool::allocate`] hands the allocator to exactly one [`Allocator`]
//! session at a time, and ending the session resets every pool and
//! returns the allocator to the lock.

use vstd::prelude::*;

use vstd::arithmetic::div_mod::{
    lemma_basic_div, lemma_div_is_ordered, lemma_div_multiples_vanish_fancy, lemma_div_plus_one,
};
use vstd::rwlock::{RwLock, WriteHandle};

use crate::buffer::GenericBuffer;
use crate::errors::AllocationError;
use core::marker::PhantomData;

verus! {

/// The number of descriptor sets each freshly created pool can serve.
pub const DEFAULT_BLOCK_SIZE: usize = 50;

/// The resource kind a layout declares at one binding slot.
#[derive(Clone, Copy, Debug, PartialEq, Eq, Structural)]
pub enum DescriptorType {
    Uniform,
}

/// A reference to one shader-visible resource, matching a declared kind.
#[derive(Clone, Copy, Debug, PartialEq)]
pub enum DescriptorResource<'a> {
    Uniform(&'a GenericBuffer),
}

/// One slot of a descriptor layout or write: a binding index paired
/// with the declared kind or the bound resource.
#[derive(Clone, Copy, Debug, PartialEq, Eq)]
pub struct Binding<T> {
    pub binding: u32,
    pub data: T,
}

/// Aggregate resource counts of one layout shape, used to size pools.
#[derive(Clone, Copy, Debug, PartialEq, Eq, Structural)]
pub struct DescriptorSizes {
    pub buffer: u32,
    pub images: u32,
}

/// The kind of resource reference `r` carries.
pub open spec fn kind_of(r: DescriptorResource) -> DescriptorType {
    match r {
        DescriptorResource::Uniform(_) => DescriptorType::Uniform,
    }
}

/// Whether the written resources `data` match the declared `layout`
/// slot for slot: same binding indices, and each resource of the
/// declared kind.
pub open spec fn kinds_match(
    data: Seq<Binding<DescriptorResource>>,
    layout: Seq<Binding<DescriptorType>>,
) -> bool {
    &&& data.len() == layout.len()
    &&& forall|i: int|
        0 <= i < data.len() ==> (#[trigger] data[i]).binding == layout[i].binding && kind_of(
            data[i].data,
        ) == layout[i].data
}

/// The value a resource reference denotes, free of the borrow: what a
/// descriptor write actually records.
#[derive(Clone, Copy, Debug, PartialEq, Eq, Structural)]
pub enum ResourceValue {
    Uniform(GenericBuffer),
}

/// The value behind the resource reference `r`.
pub open spec fn resource_value(r: DescriptorResource) -> ResourceValue {
    match r {
        DescriptorResource::Uniform(b) => ResourceValue::Uniform(*b),
    }
}

/// What one write hands to a descriptor set, slot for slot: each
/// binding index with the value its reference denotes.
pub open spec fn write_record(data: Seq<Binding<DescriptorResource>>) -> Seq<
    Binding<ResourceValue>,
> {
    data.map_values(
        |b: Binding<DescriptorResource>| Binding { binding: b.binding, data: resource_value(b.data) },
    )
}

/// A logical resource-set type: its layout shape, its pool sizing and
/// the resource references one value of it binds. Implemented by users
/// of the library for each shader-visible resource group.
pub trait DescriptorInfo: Sized {
    /// The layout shape of this resource type.
    open spec fn layout_spec() -> Seq<Binding<DescriptorType>> {
        vstd::pervasive::arbitrary()
    }

    /// The `(binding index, resource kind)` pairs of the layout.
    fn layout() -> (r: Vec<Binding<DescriptorType>>)
        ensures
            r@ == Self::layout_spec(),
    ;

    /// The aggregate size counts of this resource type.
    open spec fn sizes_spec() -> DescriptorSizes {
        vstd::pervasive::arbitrary()
    }

    /// Aggregate size counts for pool creation.
    fn sizes() -> (r: DescriptorSizes)
        ensures
            r == Self::sizes_spec(),
    ;

    /// What one value of this type writes into a descriptor set.
    open spec fn data_spec(&self) -> Seq<Binding<ResourceValue>> {
        vstd::pervasive::arbitrary()
    }

    /// The resource references to write, matching the layout's kinds
    /// and denoting exactly this value's declared data.
    fn descriptor_data<'a>(&'a self) -> (r: Vec<Binding<DescriptorResource<'a>>>)
        ensures
            kinds_match(r@, Self::layout_spec()),
            write_record(r@) == self.data_spec(),
    ;
}

/// One allocated descriptor-set instance, as the backend represents it.
pub trait DescriptorApi: Sized {
    /// The layout shape this descriptor set was allocated for.
    open spec fn layout(&self) -> Seq<Binding<DescriptorType>> {
        vstd::pervasive::arbitrary()
    }

    /// Every write this set has received, in order.
    open spec fn written(&self) -> Seq<Seq<Binding<ResourceValue>>> {
        vstd::pervasive::arbitrary()
    }

    /// Writes resource references into the set's binding slots; the
    /// references must match the set's layout kinds slot for slot, and
    /// the set receives exactly this one record.
    fn write(&mut self, data: &[Binding<DescriptorResource>])
        requires
            kinds_match(data@, old(self).layout()),
        ensures
            final(self).layout() == old(self).layout(),
            final(self).written() == old(self).written().push(write_record(data@)),
    ;
}

/// A backend descriptor set behind its API.
pub struct InnerDescriptor<D: DescriptorApi> {
    pub inner: D,
}

/// One fixed-capacity allocation arena for descriptor sets of one
/// layout shape, as the backend represents it.
pub trait PoolApi: Sized {
    /// The backend's descriptor-set representation.
    type Descr: DescriptorApi;

    /// The layout shape this pool serves.
    open spec fn layout(&self) -> Seq<Binding<DescriptorType>> {
        vstd::pervasive::arbitrary()
    }

    /// How many descriptor sets this pool's arena was sized for.
    open spec fn capacity(&self) -> nat {
        vstd::pervasive::arbitrary()
    }

    /// The aggregate size counts this pool was created with.
    open spec fn sizes(&self) -> DescriptorSizes {
        vstd::pervasive::arbitrary()
    }

    /// How many times this pool's arena has been reset.
    open spec fn reset_count(&self) -> nat {
        vstd::pervasive::arbitrary()
    }

    /// Hands out one fresh descriptor set from this pool's arena.
    fn create_descriptor(&self) -> (r: InnerDescriptor<Self::Descr>)
        ensures
            r.inner.layout() == self.layout(),
    ;

    /// Invalidates every set allocated from this pool and returns the
    /// whole arena for reuse, in one backend reset. A pool never
    /// partially resets, and a reset never reshapes the pool.
    fn reset(&mut self)
        ensures
            final(self).layout() == old(self).layout(),
            final(self).capacity() == old(self).capacity(),
            final(self).sizes() == old(self).sizes(),
            final(self).reset_count() == old(self).reset_count() + 1,
    ;
}

/// A backend pool behind its API.
pub struct InnerPool<P: PoolApi> {
    pub inner: P,
}

/// The capability to create descriptor pools, provided by a backend
/// context.
pub trait CreatePool: Sized {
    /// The backend's pool representation.
    type Pool: PoolApi;

    /// Creates a native pool sized for `alloc_size` descriptor sets of
    /// the layout described by `data` and `sizes`. Fails with an
    /// allocation error when device pool limits are exceeded; the
    /// failure is surfaced, never retried.
    fn create_pool(
        &self,
        alloc_size: u32,
        data: &[Binding<DescriptorType>],
        sizes: DescriptorSizes,
    ) -> (r: Result<InnerPool<Self::Pool>, AllocationError>)
        ensures
            r matches Ok(p) ==> p.inner.layout() == data@ && p.inner.capacity() == alloc_size
                as nat && p.inner.sizes() == sizes,
    ;
}

/// The capability to allocate one descriptor set directly, outside any
/// pool-growth scheme, provided by a backend context.
pub trait CreateDescriptor: Sized {
    /// The backend's descriptor-set representation.
    type Descr: DescriptorApi;

    /// Allocates one descriptor set for the layout described by `data`.
    fn create_descriptor(
        &self,
        data: &[Binding<DescriptorType>],
        sizes: DescriptorSizes,
    ) -> (r: InnerDescriptor<Self::Descr>)
        ensures
            r.inner.layout() == data@,
    ;
}

/// A backend descriptor-set-layout object.
pub trait LayoutApi: Sized {
    /// The layout shape the native object was created from.
    open spec fn layout(&self) -> Seq<Binding<DescriptorType>> {
        vstd::pervasive::arbitrary()
    }
}

/// A backend layout object behind its API.
pub struct InnerLayout<L: LayoutApi> {
    pub inner: L,
}

/// The capability to create descriptor-set layouts, provided by a
/// backend context.
pub trait CreateLayout: Sized {
    /// The backend's layout representation.
    type Layout: LayoutApi;

    /// Creates the native layout object for the shape `data`.
    fn create_layout(&self, data: &[Binding<DescriptorType>]) -> (r: InnerLayout<Self::Layout>)
        ensures
            r.inner.layout() == data@,
    ;
}

/// The native layout object for one logical resource type `T`.
pub struct Layout<T: DescriptorInfo, L: LayoutApi> {
    pub inner_layout: InnerLayout<L>,
    _m: PhantomData<T>,
}

impl<T: DescriptorInfo, L: LayoutApi> Layout<T, L> {
    /// The native object matches `T`'s declared layout shape.
    pub closed spec fn wf(&self) -> bool {
        self.inner_layout.inner.layout() == T::layout_spec()
    }

    /// Creates the backend layout object for `T`'s layout shape.
    pub fn new<C: CreateLayout<Layout = L>>(ctx: &C) -> (r: Self)
        ensures
            r.wf(),
    {
        let layout = T::layout();
        Layout { inner_layout: ctx.create_layout(layout.as_slice()), _m: PhantomData }
    }
}

/// Ceiling division: the least `m` with `m * b >= n`, for `b >= 1`.
pub open spec fn ceil_div(n: int, b: int) -> int {
    (n + b - 1) / b
}

/// The pool count after one more allocation against `len` existing
/// pools, `counter` allocations already made and block size `b`: the
/// allocator grows by one pool exactly when the serving pool index
/// `counter / b` does not yet exist.
pub open spec fn grown_pools(len: int, counter: int, b: int) -> int {
    if counter / b >= len {
        len + 1
    } else {
        len
    }
}

/// The pool count after `n` sequential allocations of one session,
/// starting from `len` pools and a session counter of zero, with block
/// size `b`.
pub open spec fn pools_after(len: int, n: nat, b: int) -> int
    decreases n,
{
    if n == 0 {
        len
    } else {
        grown_pools(pools_after(len, (n - 1) as nat, b), n - 1, b)
    }
}

/// Allocator growth law: starting from zero pools, `n` sequential
/// allocations leave exactly `ceil(n / b)` pools, for every block size
/// `b >= 1` and every allocation count.
pub proof fn lemma_allocator_growth(b: int, n: nat)
    requires
        b >= 1,
    ensures
        pools_after(0, n, b) == ceil_div(n as int, b),
    decreases n,
{
    if n == 0 {
        lemma_basic_div(b - 1, b);
    } else {
        lemma_allocator_growth(b, (n - 1) as nat);
        let c = n - 1;
        lemma_div_is_ordered(c, c + b - 1, b);
        lemma_div_is_ordered(c + b - 1, c + b, b);
        lemma_div_plus_one(c, b);
    }
}

/// Reset capacity law: a session over an allocator that already owns
/// `k` pools serves up to `k * b` allocations without growing beyond
/// `k` pools. Since ending a session resets pools but never removes
/// one, a new session after a reset reuses the full retained capacity.
pub proof fn lemma_reset_preserves_capacity(k: int, b: int, n: nat)
    requires
        b >= 1,
        k >= 0,
        n as int <= k * b,
    ensures
        pools_after(k, n, b) == k,
    decreases n,
{
    if n != 0 {
        lemma_reset_preserves_capacity(k, b, (n - 1) as nat);
        let c = n - 1;
        assert(b * (k - 1) + (b - 1) == k * b - 1) by (nonlinear_arith);
        lemma_div_is_ordered(c, k * b - 1, b);
        lemma_div_multiples_vanish_fancy(k - 1, b - 1, b);
    }
}

/// A growable collection of fixed-capacity pools for one layout/size
/// pair. Allocation index `i` is served by pool `i / block_size`; a
/// pool is appended exactly when that index does not yet exist.
pub struct LinearPoolAllocator<C: CreatePool> {
    ctx: C,
    block_size: usize,
    pools: Vec<InnerPool<C::Pool>>,
    layout: Vec<Binding<DescriptorType>>,
    sizes: DescriptorSizes,
}

impl<C: CreatePool> LinearPoolAllocator<C> {
    /// The fixed per-pool capacity.
    pub closed spec fn spec_block_size(&self) -> int {
        self.block_size as int
    }

    /// How many pools the allocator currently owns.
    pub closed spec fn num_pools(&self) -> int {
        self.pools@.len() as int
    }

    /// The layout shape every pool of this allocator serves.
    pub closed spec fn spec_layout(&self) -> Seq<Binding<DescriptorType>> {
        self.layout@
    }

    /// The aggregate size counts retained for lazily creating pools.
    pub closed spec fn spec_sizes(&self) -> DescriptorSizes {
        self.sizes
    }

    /// The owned pools, in order.
    pub closed spec fn spec_pools(&self) -> Seq<InnerPool<C::Pool>> {
        self.pools@
    }

    /// The block size is positive and fits a `u32` pool-size argument,
    /// and every owned pool serves the stored layout.
    pub closed spec fn wf(&self) -> bool {
        &&& 1 <= self.block_size <= u32::MAX
        &&& forall|i: int|
            0 <= i < self.pools@.len() ==> (#[trigger] self.pools@[i]).inner.layout()
                == self.layout@
    }

    /// Creates an allocator for `T`'s layout shape with zero pools and
    /// the default block size; pools are created lazily on demand.
    pub fn new<T: DescriptorInfo>(ctx: &C) -> (r: Self) where C: Clone
        ensures
            r.wf(),
            r.num_pools() == 0,
            r.spec_block_size() == DEFAULT_BLOCK_SIZE as int,
            r.spec_layout() == T::layout_spec(),
            r.spec_sizes() == T::sizes_spec(),
    {
        LinearPoolAllocator {
            ctx: ctx.clone(),
            block_size: DEFAULT_BLOCK_SIZE,
            pools: Vec::new(),
            layout: T::layout(),
            sizes: T::sizes(),
        }
    }

    /// Appends one pool requested from the backend at exactly the
    /// block size, with the stored layout and size counts; called only
    /// when the allocator is full. The existing pools are untouched. A
    /// backend allocation failure is surfaced and leaves the allocator
    /// unchanged.
    pub fn allocate_additional_pool(&mut self) -> (r: Result<(), AllocationError>)
        requires
            old(self).wf(),
        ensures
            final(self).wf(),
            final(self).spec_block_size() == old(self).spec_block_size(),
            final(self).spec_layout() == old(self).spec_layout(),
            final(self).spec_sizes() == old(self).spec_sizes(),
            r is Ok ==> final(self).num_pools() == old(self).num_pools() + 1 && (forall|i: int|
                0 <= i < old(self).num_pools() ==> final(self).spec_pools()[i] == old(self).spec_pools()[i]) && final(self).spec_pools().last().inner.capacity() == old(self).spec_block_size() && final(self).spec_pools().last().inner.sizes() == old(self).spec_sizes() && final(self).spec_pools().last().inner.layout() == old(self).spec_layout(),
            r is Err ==> *final(self) == *old(self),
    {
        match self.ctx.create_pool(self.block_size as u32, self.layout.as_slice(), self.sizes) {
            Ok(pool) => {
                self.pools.push(pool);
                Ok(())
            },
            Err(e) => Err(e),
        }
    }

    /// Resets every owned pool — each receives exactly one backend
    /// reset — invalidating all descriptor sets served from them and
    /// returning all capacity for reuse. This is the only way capacity
    /// is reclaimed; no pool is removed or reshaped, so the retained
    /// pool count is the allocator's capacity for the next session.
    pub fn reset(&mut self)
        requires
            old(self).wf(),
        ensures
            final(self).wf(),
            final(self).num_pools() == old(self).num_pools(),
            final(self).spec_block_size() == old(self).spec_block_size(),
            final(self).spec_layout() == old(self).spec_layout(),
            final(self).spec_sizes() == old(self).spec_sizes(),
            forall|i: int|
                0 <= i < old(self).num_pools() ==> (#[trigger] final(self).spec_pools()[i]).inner.reset_count() == old(self).spec_pools()[i].inner.reset_count() + 1 && final(self).spec_pools()[i].inner.capacity() == old(self).spec_pools()[i].inner.capacity(),
    {
        let n = self.pools.len();
        let mut i: usize = 0;
        while i < n
            invariant
                i <= n,
                n == self.pools@.len(),
                self.block_size == old(self).block_size,
                self.layout@ == old(self).layout@,
                self.sizes == old(self).sizes,
                1 <= self.block_size <= u32::MAX,
                forall|j: int|
                    0 <= j < self.pools@.len() ==> (#[trigger] self.pools@[j]).inner.layout()
                        == self.layout@,
                forall|j: int|
                    0 <= j < i ==> (#[trigger] self.pools@[j]).inner.reset_count() == old(self).pools@[j].inner.reset_count() + 1 && self.pools@[j].inner.capacity() == old(self).pools@[j].inner.capacity(),
                forall|j: int| i <= j < n ==> #[trigger] self.pools@[j] == old(self).pools@[j],
            decreases n - i,
        {
            self.pools[i].inner.reset();
            i = i + 1;
        }
    }

    /// How many pools the allocator currently owns.
    pub fn pool_count(&self) -> (r: usize)
        ensures
            r as int == self.num_pools(),
    {
        self.pools.len()
    }

    /// The fixed per-pool capacity.
    pub fn block_size(&self) -> (r: usize)
        ensures
            r as int == self.spec_block_size(),
    {
        self.block_size
    }
}

/// The lock that guards one allocator; at most one session holds the
/// allocator out of it at a time.
pub type PoolAllocator<C> = RwLock<
    LinearPoolAllocator<C>,
    spec_fn(LinearPoolAllocator<C>) -> bool,
>;

/// A handle to one allocated descriptor set, bound to the logical
/// resource type `T` whose layout it was allocated for. Valid only for
/// the lifetime of the session that allocated it.
pub struct Descriptor<'a, T: DescriptorInfo, D: DescriptorApi> {
    pub inner_descriptor: InnerDescriptor<D>,
    pool_index: Ghost<int>,
    _m: PhantomData<&'a T>,
}

impl<'a, T: DescriptorInfo, D: DescriptorApi> Descriptor<'a, T, D> {
    /// Which pool of the owning allocator served this descriptor.
    pub closed spec fn pool_index(&self) -> int {
        self.pool_index@
    }

    /// The native set was allocated for `T`'s layout shape.
    pub closed spec fn wf(&self) -> bool {
        self.inner_descriptor.inner.layout() == T::layout_spec()
    }

    /// Every write the native set has received, in order.
    pub closed spec fn written(&self) -> Seq<Seq<Binding<ResourceValue>>> {
        self.inner_descriptor.inner.written()
    }

    /// Writes `t`'s resource references into the set. The references
    /// match the layout's declared kinds by `T`'s contract, and the
    /// set receives exactly one record: `t`'s declared data.
    pub fn update(&mut self, t: &'a T)
        requires
            old(self).wf(),
        ensures
            final(self).wf(),
            final(self).pool_index() == old(self).pool_index(),
            final(self).written() == old(self).written().push(t.data_spec()),
    {
        let data = t.descriptor_data();
        self.inner_descriptor.inner.write(data.as_slice());
    }
}

/// What a [`Pool`]'s lock stores: well-formed allocators of `T`'s
/// layout shape, at the default block size, retaining `T`'s size
/// counts. Every session operation preserves this, so it is what any
/// later session can rely on.
pub open spec fn pool_lock_inv<T: DescriptorInfo, C: CreatePool>(
    a: LinearPoolAllocator<C>,
) -> bool {
    &&& a.wf()
    &&& a.spec_layout() == T::layout_spec()
    &&& a.spec_block_size() == DEFAULT_BLOCK_SIZE as int
    &&& a.spec_sizes() == T::sizes_spec()
}

/// An exclusive allocation session over one [`LinearPoolAllocator`].
///
/// The session owns the allocator for its whole lifetime — the second
/// acquirer blocks until the first session ends — and tracks a
/// monotonically increasing allocation counter starting at zero.
/// [`Allocator::end`] resets every pool and returns the allocator;
/// every descriptor allocated by the session becomes invalid then.
#[verifier::reject_recursive_types(C)]
pub struct Allocator<'pool, T: DescriptorInfo, C: CreatePool> {
    allocator: LinearPoolAllocator<C>,
    handle: WriteHandle<'pool, LinearPoolAllocator<C>, spec_fn(LinearPoolAllocator<C>) -> bool>,
    current_allocations: usize,
    _m: PhantomData<T>,
}

impl<'pool, T: DescriptorInfo, C: CreatePool> Allocator<'pool, T, C> {
    /// How many descriptor sets this session has handed out.
    pub closed spec fn count(&self) -> int {
        self.current_allocations as int
    }

    /// How many pools the owned allocator currently holds.
    pub closed spec fn num_pools(&self) -> int {
        self.allocator.num_pools()
    }

    /// The owned allocator's fixed per-pool capacity.
    pub closed spec fn spec_block_size(&self) -> int {
        self.allocator.spec_block_size()
    }

    /// The owned allocator satisfies the lock's invariant
    /// ([`pool_lock_inv`]), the pool count covers every allocation
    /// made so far, and the lock this session took the allocator from
    /// accepts any such allocator back.
    pub closed spec fn wf(&self) -> bool {
        &&& pool_lock_inv::<T, C>(self.allocator)
        &&& self.allocator.num_pools() >= ceil_div(
            self.current_allocations as int,
            self.allocator.spec_block_size(),
        )
        &&& forall|a: LinearPoolAllocator<C>|
            pool_lock_inv::<T, C>(a) ==> #[trigger] self.handle.rwlock().inv(a)
    }

    /// Hands out one fresh descriptor set. The serving pool index is
    /// `count / block_size`; when that pool does not yet exist, exactly
    /// one pool is appended first. A backend failure to grow is
    /// surfaced and leaves the session unchanged.
    pub fn allocate<'alloc>(&'alloc mut self) -> (r: Result<
        Descriptor<'alloc, T, <C::Pool as PoolApi>::Descr>,
        AllocationError,
    >)
        requires
            old(self).wf(),
            old(self).count() < usize::MAX as int,
        ensures
            final(self).wf(),
            final(self).spec_block_size() == old(self).spec_block_size(),
            r matches Ok(d) ==> final(self).count() == old(self).count() + 1
                && final(self).num_pools() == grown_pools(
                old(self).num_pools(),
                old(self).count(),
                old(self).spec_block_size(),
            ) && d.pool_index() == old(self).count() / old(self).spec_block_size() && d.wf(),
            old(self).count() / old(self).spec_block_size() < old(self).num_pools() ==> r is Ok,
            r is Err ==> final(self).count() == old(self).count() && final(self).num_pools()
                == old(self).num_pools(),
    {
        let allocator_index = self.current_allocations / self.allocator.block_size;
        proof {
            // The pool count covers the counter, so the serving index is
            // at most the pool count: one growth step always suffices.
            lemma_div_is_ordered(
                self.current_allocations as int,
                self.current_allocations + self.allocator.block_size - 1,
                self.allocator.block_size as int,
            );
            // After the counter advances, the covered ceiling grows to
            // the served index plus one.
            lemma_div_plus_one(
                self.current_allocations as int,
                self.allocator.block_size as int,
            );
        }
        if allocator_index >= self.allocator.pools.len() {
            match self.allocator.allocate_additional_pool() {
                Ok(()) => (),
                Err(e) => {
                    return Err(e);
                },
            }
        }
        let inner_descriptor = self.allocator.pools[allocator_index].inner.create_descriptor();
        self.current_allocations = self.current_allocations + 1;
        Ok(
            Descriptor {
                inner_descriptor,
                pool_index: Ghost(allocator_index as int),
                _m: PhantomData,
            },
        )
    }

    /// How many pools the owned allocator currently holds.
    pub fn pool_count(&self) -> (r: usize)
        ensures
            r as int == self.num_pools(),
    {
        self.allocator.pool_count()
    }

    /// How many descriptor sets this session has handed out.
    pub fn allocation_count(&self) -> (r: usize)
        ensures
            r as int == self.count(),
    {
        self.current_allocations
    }

    /// The owned allocator's fixed per-pool capacity.
    pub fn block_size(&self) -> (r: usize)
        ensures
            r as int == self.spec_block_size(),
    {
        self.allocator.block_size()
    }

    /// Ends the session: resets every pool of the owned allocator —
    /// every descriptor set handed out by this session becomes invalid,
    /// and all capacity is returned for reuse — then releases the
    /// allocator so the next session can take it. The retained pool
    /// count is unchanged by the reset.
    pub fn end(self)
        requires
            self.wf(),
    {
        let Allocator { mut allocator, handle, current_allocations: _, _m: _ } = self;
        allocator.reset();
        handle.release_write(allocator);
    }
}

/// A shareable handle over one allocator for the logical resource type
/// `T`: it owns the lock from which sessions take the allocator.
#[verifier::reject_recursive_types(C)]
pub struct Pool<T: DescriptorInfo, C: CreatePool> {
    ctx: C,
    allocator: PoolAllocator<C>,
    _m: PhantomData<T>,
}

impl<T: DescriptorInfo, C: CreatePool> Pool<T, C> {
    /// The lock stores exactly the allocators [`pool_lock_inv`]
    /// admits: well-formed, of `T`'s layout shape, at the default
    /// block size, with `T`'s size counts.
    pub closed spec fn wf(&self) -> bool {
        forall|a: LinearPoolAllocator<C>|
            #[trigger] self.allocator.inv(a) <==> pool_lock_inv::<T, C>(a)
    }

    /// Creates a pool handle whose allocator starts with zero pools at
    /// the default block size, retaining `T`'s layout and size counts
    /// for lazily creating pools.
    pub fn new(ctx: &C) -> (r: Self) where C: Clone
        ensures
            r.wf(),
    {
        let allocator = LinearPoolAllocator::new::<T>(ctx);
        Pool {
            ctx: ctx.clone(),
            allocator: RwLock::new(
                allocator,
                Ghost(|a: LinearPoolAllocator<C>| pool_lock_inv::<T, C>(a)),
            ),
            _m: PhantomData,
        }
    }

    /// Begins an allocation session: takes the allocator out of the
    /// lock, blocking while another session holds it. The session
    /// counter starts at zero and the block size is the default.
    pub fn allocate(&self) -> (s: Allocator<'_, T, C>)
        requires
            self.wf(),
        ensures
            s.wf(),
            s.count() == 0,
            s.spec_block_size() == DEFAULT_BLOCK_SIZE as int,
    {
        let (allocator, handle) = self.allocator.acquire_write();
        proof {
            lemma_basic_div(
                allocator.spec_block_size() - 1,
                allocator.spec_block_size(),
            );
        }
        Allocator { allocator, handle, current_allocations: 0, _m: PhantomData }
    }
}

} // verus!
