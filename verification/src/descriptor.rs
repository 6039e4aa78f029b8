//! Descriptor-set layouts, the pool they are allocated from, and the writes
//! that point a set's bindings at resources.

use vstd::prelude::*;
use crate::command::ImageSlot;
use crate::error::StartupError;
use crate::scene::BufferView;

verus! {

/// The kind of resource a binding holds.
#[derive(Clone, Copy, Debug, PartialEq, Eq, Structural)]
pub enum ResourceKind {
    AccelerationStructure,
    StorageBuffer,
    StorageImage,
    SampledImage,
    Sampler,
}

/// One of the three buffers that mirror a scene on the device.
#[derive(Clone, Copy, Debug, PartialEq, Eq, Structural)]
pub enum MirrorBuffer {
    GeometryInfos,
    GeometryInfoOffsets,
    MaterialInfos,
}

/// What a descriptor write points a binding at.
#[derive(Clone, Copy, Debug, PartialEq, Eq, Structural)]
pub enum DescriptorUpdate {
    /// The top-level acceleration structure with this handle.
    AccelerationStructure(u64),
    /// A buffer that the scene owns.
    SceneBuffer(BufferView),
    /// One of the mirror's buffers, from its first byte.
    MirrorBuffer(MirrorBuffer),
    /// The scene's samplers, all of them; the count is never zero.
    SceneSamplers(u32),
    /// The scene's images, all of them; the count is never zero.
    SceneImages(u32),
    /// The image view with this handle.
    Image(u64),
    /// One of the images that the pass itself owns.
    PassImage(ImageSlot),
}

/// A write of one binding of a descriptor set.
#[derive(Clone, Copy, Debug, PartialEq, Eq, Structural)]
pub struct DescriptorWrite {
    pub binding: u32,
    pub update: DescriptorUpdate,
}

/// Visibility of a binding to the vertex stage.
pub const STAGE_VERTEX: u32 = 0x0000_0001;

/// Visibility of a binding to the fragment stage.
pub const STAGE_FRAGMENT: u32 = 0x0000_0010;

/// Visibility of a binding to the ray generation stage.
pub const STAGE_RAYGEN: u32 = 0x0000_0100;

/// Visibility of a binding to the closest-hit stage.
pub const STAGE_CLOSEST_HIT: u32 = 0x0000_0400;

/// Visibility of a binding to the miss stage.
pub const STAGE_MISS: u32 = 0x0000_0800;

/// Visibility of a binding to every stage.
pub const STAGE_ALL: u32 = 0x7FFF_FFFF;

/// How a sampler filters between texels.
#[derive(Clone, Copy, Debug, PartialEq, Eq, Structural)]
pub enum Filter {
    Nearest,
    Linear,
}

/// What a sampler does with coordinates outside the image.
#[derive(Clone, Copy, Debug, PartialEq, Eq, Structural)]
pub enum SamplerAddressMode {
    Repeat,
    ClampToEdge,
}

/// The settings of a sampler.
#[derive(Clone, Copy, Debug, PartialEq, Eq, Structural)]
pub struct SamplerSpec {
    pub mag_filter: Filter,
    pub min_filter: Filter,
    pub address_mode_u: SamplerAddressMode,
    pub address_mode_v: SamplerAddressMode,
}

/// One binding of a descriptor-set layout.
#[derive(Clone, Copy, Debug, PartialEq, Eq, Structural)]
pub struct DescriptorBindingSpec {
    /// The set this binding belongs to.
    pub set: u32,
    /// The binding's number within its set.
    pub binding: u32,
    /// The kind of resource bound.
    pub kind: ResourceKind,
    /// The shader stages that see the binding.
    pub visibility: u32,
    /// The number of array elements; for a variable-length binding, the
    /// largest number it may ever have.
    pub count: u32,
    /// Whether the number of elements is fixed only when a set is allocated.
    pub variable_count: bool,
    /// For a sampler binding, the sampler built into the layout, if any.
    pub immutable_sampler: Option<SamplerSpec>,
}

/// How many descriptors of each kind a pool holds, or a set takes.
#[derive(Clone, Copy, Debug, PartialEq, Eq, Structural)]
pub struct PoolSizes {
    pub acceleration_structures: u32,
    pub storage_buffers: u32,
    pub storage_images: u32,
    pub sampled_images: u32,
    pub samplers: u32,
}

impl PoolSizes {
    /// The number of descriptors of one kind.
    pub open spec fn of(self, kind: ResourceKind) -> u32 {
        match kind {
            ResourceKind::AccelerationStructure => self.acceleration_structures,
            ResourceKind::StorageBuffer => self.storage_buffers,
            ResourceKind::StorageImage => self.storage_images,
            ResourceKind::SampledImage => self.sampled_images,
            ResourceKind::Sampler => self.samplers,
        }
    }

    /// Sizes with the same number of descriptors of every kind.
    pub fn uniform(count: u32) -> (sizes: PoolSizes)
        ensures
            sizes == (PoolSizes {
                acceleration_structures: count,
                storage_buffers: count,
                storage_images: count,
                sampled_images: count,
                samplers: count,
            }),
    {
        PoolSizes {
            acceleration_structures: count,
            storage_buffers: count,
            storage_images: count,
            sampled_images: count,
            samplers: count,
        }
    }

    /// The number of descriptors of one kind.
    pub fn get(&self, kind: ResourceKind) -> (count: u32)
        ensures
            count == self.of(kind),
    {
        match kind {
            ResourceKind::AccelerationStructure => self.acceleration_structures,
            ResourceKind::StorageBuffer => self.storage_buffers,
            ResourceKind::StorageImage => self.storage_images,
            ResourceKind::SampledImage => self.sampled_images,
            ResourceKind::Sampler => self.samplers,
        }
    }
}

/// The number of descriptors of kind `kind` that a set with these bindings
/// takes from a pool.
pub open spec fn demand(bindings: Seq<DescriptorBindingSpec>, kind: ResourceKind) -> int
    decreases bindings.len(),
{
    if bindings.len() == 0 {
        0
    } else {
        demand(bindings.drop_last(), kind) + if bindings.last().kind == kind {
            bindings.last().count as int
        } else {
            0
        }
    }
}

/// Whether binding `i` may stand where it stands in a layout for set `set`:
/// it belongs to that set, is no empty array, has a built-in sampler only if
/// it binds a sampler, and comes after a binding of fixed length with a
/// smaller number, if it comes after any.
pub open spec fn binding_in_place(set: u32, bindings: Seq<DescriptorBindingSpec>, i: int) -> bool {
    &&& bindings[i].set == set
    &&& bindings[i].count > 0
    &&& bindings[i].immutable_sampler is Some ==> bindings[i].kind == ResourceKind::Sampler
    &&& i > 0 ==> bindings[i - 1].binding < bindings[i].binding && !bindings[i - 1].variable_count
}

/// Whether bindings form a layout for set `set`: every one of them is in
/// place. So their numbers increase strictly, and only the last of them may
/// be of variable length.
pub open spec fn layout_valid(set: u32, bindings: Seq<DescriptorBindingSpec>) -> bool {
    forall|i: int| 0 <= i < bindings.len() ==> #[trigger] binding_in_place(set, bindings, i)
}

/// In a layout, a binding of variable length is the last one.
pub proof fn law_variable_length_binding_is_last(set: u32, bindings: Seq<DescriptorBindingSpec>, i: int)
    requires
        layout_valid(set, bindings),
        0 <= i < bindings.len(),
        bindings[i].variable_count,
    ensures
        i == bindings.len() - 1,
{
    if i < bindings.len() - 1 {
        assert(binding_in_place(set, bindings, i + 1));
    }
}

/// Whether a pool with `available` descriptors of each kind left can give a
/// set with these bindings what it takes.
pub open spec fn pool_covers(available: PoolSizes, bindings: Seq<DescriptorBindingSpec>) -> bool {
    forall|kind: ResourceKind| demand(bindings, kind) <= #[trigger] available.of(kind)
}

/// The demand of a run of bindings is never negative and never shrinks as
/// the run grows.
pub proof fn lemma_demand_monotonic(bindings: Seq<DescriptorBindingSpec>, kind: ResourceKind, i: int)
    requires
        0 <= i <= bindings.len(),
    ensures
        0 <= demand(bindings.take(i), kind) <= demand(bindings, kind),
    decreases bindings.len() - i,
{
    if i == bindings.len() {
        assert(bindings.take(i) =~= bindings);
        lemma_demand_nonnegative(bindings, kind);
    } else {
        lemma_demand_monotonic(bindings, kind, i + 1);
        assert(bindings.take(i + 1).drop_last() =~= bindings.take(i));
        lemma_demand_nonnegative(bindings.take(i), kind);
    }
}

/// The demand of a run of bindings is never negative.
pub proof fn lemma_demand_nonnegative(bindings: Seq<DescriptorBindingSpec>, kind: ResourceKind)
    ensures
        0 <= demand(bindings, kind),
    decreases bindings.len(),
{
    if bindings.len() > 0 {
        lemma_demand_nonnegative(bindings.drop_last(), kind);
    }
}

/// Checks whether bindings form a layout for set `set`.
pub fn check_layout(set: u32, bindings: &Vec<DescriptorBindingSpec>) -> (ok: bool)
    ensures
        ok == layout_valid(set, bindings@),
{
    let n: usize = bindings.len();
    let mut i: usize = 0;
    while i < n
        invariant
            n == bindings@.len(),
            i <= n,
            forall|k: int| 0 <= k < i ==> #[trigger] binding_in_place(set, bindings@, k),
        decreases n - i,
    {
        let b = &bindings[i];
        let own = b.set == set && b.count > 0 && (b.immutable_sampler.is_none() || b.kind
            == ResourceKind::Sampler);
        let after_previous = i == 0 || (bindings[i - 1].binding < b.binding && !bindings[i
            - 1].variable_count);
        if !(own && after_previous) {
            assert(!binding_in_place(set, bindings@, i as int));
            return false;
        }
        assert(binding_in_place(set, bindings@, i as int));
        i += 1;
    }
    true
}

/// Takes from `available` descriptors of kind `kind` what a set with these
/// bindings needs, and gives what is left; nothing if they do not suffice.
pub fn take_demand(bindings: &Vec<DescriptorBindingSpec>, kind: ResourceKind, available: u32) -> (left:
    Option<u32>)
    ensures
        left is Some <==> demand(bindings@, kind) <= available,
        left matches Some(rest) ==> rest == available - demand(bindings@, kind),
{
    let n: usize = bindings.len();
    let mut rest: u32 = available;
    let mut i: usize = 0;
    proof {
        assert(bindings@.take(0) =~= Seq::<DescriptorBindingSpec>::empty());
    }
    while i < n
        invariant
            n == bindings@.len(),
            i <= n,
            rest + demand(bindings@.take(i as int), kind) == available,
        decreases n - i,
    {
        let b = &bindings[i];
        proof {
            assert(bindings@.take(i + 1).drop_last() =~= bindings@.take(i as int));
        }
        if b.kind == kind {
            if b.count > rest {
                proof {
                    lemma_demand_monotonic(bindings@, kind, i + 1);
                }
                return None;
            }
            rest = rest - b.count;
        }
        i += 1;
    }
    proof {
        assert(bindings@.take(n as int) =~= bindings@);
    }
    Some(rest)
}

/// Whether an update may be written to a binding: the kinds agree, and an
/// array written has at least one element and no more than the binding holds.
pub open spec fn update_fits(spec: DescriptorBindingSpec, update: DescriptorUpdate) -> bool {
    match update {
        DescriptorUpdate::AccelerationStructure(_) => spec.kind
            == ResourceKind::AccelerationStructure,
        DescriptorUpdate::SceneBuffer(_) => spec.kind == ResourceKind::StorageBuffer,
        DescriptorUpdate::MirrorBuffer(_) => spec.kind == ResourceKind::StorageBuffer,
        DescriptorUpdate::SceneSamplers(n) => spec.kind == ResourceKind::Sampler && 0 < n
            <= spec.count,
        DescriptorUpdate::SceneImages(n) => spec.kind == ResourceKind::SampledImage && 0 < n
            <= spec.count,
        DescriptorUpdate::Image(_) => spec.kind == ResourceKind::StorageImage || spec.kind
            == ResourceKind::SampledImage,
        DescriptorUpdate::PassImage(_) => spec.kind == ResourceKind::StorageImage,
    }
}

/// Whether a write may be made to a set with these bindings: one of them
/// has the write's number, and the update fits it.
pub open spec fn write_fits(bindings: Seq<DescriptorBindingSpec>, write: DescriptorWrite) -> bool {
    exists|i: int|
        0 <= i < bindings.len() && (#[trigger] bindings[i]).binding == write.binding
            && update_fits(bindings[i], write.update)
}

/// Whether every one of the writes may be made to a set with these bindings.
pub open spec fn writes_fit(bindings: Seq<DescriptorBindingSpec>, writes: Seq<DescriptorWrite>) -> bool {
    forall|k: int| 0 <= k < writes.len() ==> write_fits(bindings, #[trigger] writes[k])
}

/// Checks whether an update may be written to a binding.
pub fn check_update(spec: &DescriptorBindingSpec, update: &DescriptorUpdate) -> (ok: bool)
    ensures
        ok == update_fits(*spec, *update),
{
    match update {
        DescriptorUpdate::AccelerationStructure(_) => spec.kind
            == ResourceKind::AccelerationStructure,
        DescriptorUpdate::SceneBuffer(_) => spec.kind == ResourceKind::StorageBuffer,
        DescriptorUpdate::MirrorBuffer(_) => spec.kind == ResourceKind::StorageBuffer,
        DescriptorUpdate::SceneSamplers(n) => spec.kind == ResourceKind::Sampler && 0 < *n && *n
            <= spec.count,
        DescriptorUpdate::SceneImages(n) => spec.kind == ResourceKind::SampledImage && 0 < *n
            && *n <= spec.count,
        DescriptorUpdate::Image(_) => spec.kind == ResourceKind::StorageImage || spec.kind
            == ResourceKind::SampledImage,
        DescriptorUpdate::PassImage(_) => spec.kind == ResourceKind::StorageImage,
    }
}

/// Checks whether a write may be made to a set with these bindings.
pub fn check_write(bindings: &Vec<DescriptorBindingSpec>, write: &DescriptorWrite) -> (ok: bool)
    ensures
        ok == write_fits(bindings@, *write),
{
    let n: usize = bindings.len();
    let mut i: usize = 0;
    while i < n
        invariant
            n == bindings@.len(),
            i <= n,
            forall|k: int|
                0 <= k < i ==> !((#[trigger] bindings@[k]).binding == write.binding
                    && update_fits(bindings@[k], write.update)),
        decreases n - i,
    {
        if bindings[i].binding == write.binding && check_update(&bindings[i], &write.update) {
            return true;
        }
        i += 1;
    }
    false
}

/// Checks whether every one of the writes may be made to a set with these
/// bindings.
pub fn check_writes(bindings: &Vec<DescriptorBindingSpec>, writes: &Vec<DescriptorWrite>) -> (ok:
    bool)
    ensures
        ok == writes_fit(bindings@, writes@),
{
    let n: usize = writes.len();
    let mut k: usize = 0;
    while k < n
        invariant
            n == writes@.len(),
            k <= n,
            forall|j: int| 0 <= j < k ==> write_fits(bindings@, #[trigger] writes@[j]),
        decreases n - k,
    {
        if !check_write(bindings, &writes[k]) {
            return false;
        }
        k += 1;
    }
    true
}

/// Names a layout of a catalog.
#[derive(Clone, Copy, Debug, PartialEq, Eq, Structural)]
pub struct LayoutHandle {
    pub index: usize,
}

/// Names a descriptor set of a catalog.
#[derive(Clone, Copy, Debug, PartialEq, Eq, Structural)]
pub struct SetHandle {
    pub index: usize,
}

/// A descriptor-set layout: the set it is for and its bindings.
#[derive(Debug)]
pub struct DescriptorSetLayout {
    pub set: u32,
    pub bindings: Vec<DescriptorBindingSpec>,
}

/// A descriptor set: the layout it was allocated with and the writes it was
/// populated with at creation.
#[derive(Debug)]
pub struct DescriptorSet {
    pub layout: LayoutHandle,
    pub initial: Vec<DescriptorWrite>,
}

/// What the sets `sets[0 .. n]` take of kind `kind` from the pool.
pub open spec fn sets_demand(
    layouts: Seq<DescriptorSetLayout>,
    sets: Seq<DescriptorSet>,
    kind: ResourceKind,
    n: int,
) -> int
    decreases n,
{
    if n <= 0 {
        0
    } else {
        sets_demand(layouts, sets, kind, n - 1) + demand(
            layouts[sets[n - 1].layout.index as int].bindings@,
            kind,
        )
    }
}

/// What the sets take from the pool does not depend on layouts and sets
/// that came later.
pub proof fn lemma_sets_demand_extends(
    layouts: Seq<DescriptorSetLayout>,
    sets: Seq<DescriptorSet>,
    more_layouts: Seq<DescriptorSetLayout>,
    more_sets: Seq<DescriptorSet>,
    kind: ResourceKind,
    n: int,
)
    requires
        0 <= n <= sets.len() <= more_sets.len(),
        layouts.len() <= more_layouts.len(),
        forall|i: int| 0 <= i < layouts.len() ==> #[trigger] more_layouts[i] == layouts[i],
        forall|i: int| 0 <= i < sets.len() ==> #[trigger] more_sets[i] == sets[i],
        forall|i: int| 0 <= i < sets.len() ==> (#[trigger] sets[i]).layout.index < layouts.len(),
    ensures
        sets_demand(more_layouts, more_sets, kind, n) == sets_demand(layouts, sets, kind, n),
    decreases n,
{
    if n > 0 {
        lemma_sets_demand_extends(layouts, sets, more_layouts, more_sets, kind, n - 1);
        assert(more_sets[n - 1] == sets[n - 1]);
        assert(more_layouts[sets[n - 1].layout.index as int] == layouts[sets[n
            - 1].layout.index as int]);
    }
}

/// The layouts a renderer declares and the one pool all of its descriptor
/// sets come from.
#[derive(Debug)]
pub struct BindingLayoutCatalog {
    capacity: PoolSizes,
    max_sets: u32,
    available: PoolSizes,
    layouts: Vec<DescriptorSetLayout>,
    sets: Vec<DescriptorSet>,
}

impl BindingLayoutCatalog {
    /// The descriptors of each kind the pool was made with.
    pub closed spec fn capacity(&self) -> PoolSizes {
        self.capacity
    }

    /// The number of sets the pool was made for.
    pub closed spec fn max_sets(&self) -> u32 {
        self.max_sets
    }

    /// The descriptors of each kind that no set has taken yet.
    pub closed spec fn available(&self) -> PoolSizes {
        self.available
    }

    /// The layouts declared so far, in the order of their declaration.
    pub closed spec fn layouts(&self) -> Seq<DescriptorSetLayout> {
        self.layouts@
    }

    /// The sets allocated so far, in the order of their allocation.
    pub closed spec fn sets(&self) -> Seq<DescriptorSet> {
        self.sets@
    }

    /// The invariant: every layout is valid, every set names a layout, no
    /// more sets exist than the pool was made for, and for every kind what
    /// the sets took and what is still available make up the capacity.
    pub open spec fn wf(&self) -> bool {
        &&& self.sets().len() <= self.max_sets()
        &&& forall|i: int|
            0 <= i < self.layouts().len() ==> layout_valid(
                (#[trigger] self.layouts()[i]).set,
                self.layouts()[i].bindings@,
            )
        &&& forall|i: int|
            0 <= i < self.sets().len() ==> (#[trigger] self.sets()[i]).layout.index
                < self.layouts().len()
        &&& forall|kind: ResourceKind|
            (#[trigger] self.available().of(kind)) + sets_demand(
                self.layouts(),
                self.sets(),
                kind,
                self.sets().len() as int,
            ) == self.capacity().of(kind)
    }

    /// Whether a set with the layout `layout` can be allocated now: the
    /// layout exists, the pool has a set left, and of every kind it has as
    /// many descriptors left as the layout takes.
    pub open spec fn can_allocate(&self, layout: LayoutHandle) -> bool {
        &&& layout.index < self.layouts().len()
        &&& self.sets().len() < self.max_sets()
        &&& pool_covers(self.available(), self.layouts()[layout.index as int].bindings@)
    }

    /// A catalog without layouts or sets, over a pool of the given sizes.
    pub fn new(capacity: PoolSizes, max_sets: u32) -> (catalog: BindingLayoutCatalog)
        ensures
            catalog.wf(),
            catalog.capacity() == capacity,
            catalog.available() == capacity,
            catalog.max_sets() == max_sets,
            catalog.layouts().len() == 0,
            catalog.sets().len() == 0,
    {
        BindingLayoutCatalog {
            capacity,
            max_sets,
            available: capacity,
            layouts: Vec::new(),
            sets: Vec::new(),
        }
    }

    /// The descriptors of each kind the pool was made with.
    pub fn pool_capacity(&self) -> (sizes: PoolSizes)
        ensures
            sizes == self.capacity(),
    {
        self.capacity
    }

    /// The descriptors of each kind that no set has taken yet.
    pub fn pool_available(&self) -> (sizes: PoolSizes)
        ensures
            sizes == self.available(),
    {
        self.available
    }

    /// The number of sets the pool was made for.
    pub fn pool_max_sets(&self) -> (n: u32)
        ensures
            n == self.max_sets(),
    {
        self.max_sets
    }

    /// The layouts declared so far.
    pub fn declared_layouts(&self) -> (layouts: &Vec<DescriptorSetLayout>)
        ensures
            layouts@ == self.layouts(),
    {
        &self.layouts
    }

    /// The sets allocated so far.
    pub fn allocated_sets(&self) -> (sets: &Vec<DescriptorSet>)
        ensures
            sets@ == self.sets(),
    {
        &self.sets
    }

    /// Declares a layout for set `set`.
    ///
    /// The bindings must form a layout, and the pool must have been made
    /// with enough descriptors of every kind for one set of it; otherwise
    /// the layout is refused and the catalog stays as it was.
    pub fn create_layout(&mut self, set: u32, bindings: Vec<DescriptorBindingSpec>) -> (r: Result<
        LayoutHandle,
        StartupError,
    >)
        requires
            old(self).wf(),
        ensures
            final(self).wf(),
            final(self).capacity() == old(self).capacity(),
            final(self).max_sets() == old(self).max_sets(),
            final(self).available() == old(self).available(),
            final(self).sets() == old(self).sets(),
            r is Ok <==> layout_valid(set, bindings@) && pool_covers(old(self).capacity(), bindings@),
            r is Err ==> r == Err::<LayoutHandle, StartupError>(StartupError::LayoutCreationError)
                && final(self).layouts() == old(self).layouts(),
            r matches Ok(handle) ==> {
                &&& handle.index == old(self).layouts().len()
                &&& final(self).layouts().len() == old(self).layouts().len() + 1
                &&& final(self).layouts()[handle.index as int].set == set
                &&& final(self).layouts()[handle.index as int].bindings@ == bindings@
                &&& forall|i: int|
                    0 <= i < old(self).layouts().len() ==> #[trigger] final(self).layouts()[i] == old(
                        self,
                    ).layouts()[i]
            },
    {
        if !check_layout(set, &bindings) {
            return Err(StartupError::LayoutCreationError);
        }
        if !covers(&self.capacity, &bindings) {
            return Err(StartupError::LayoutCreationError);
        }
        let index: usize = self.layouts.len();
        self.layouts.push(DescriptorSetLayout { set, bindings });
        proof {
            assert forall|kind: ResourceKind|
                (#[trigger] self.available().of(kind)) + sets_demand(
                    self.layouts(),
                    self.sets(),
                    kind,
                    self.sets().len() as int,
                ) == self.capacity().of(kind) by {
                lemma_sets_demand_extends(
                    old(self).layouts(),
                    old(self).sets(),
                    self.layouts(),
                    self.sets(),
                    kind,
                    self.sets().len() as int,
                );
                assert(old(self).available().of(kind) + sets_demand(
                    old(self).layouts(),
                    old(self).sets(),
                    kind,
                    old(self).sets().len() as int,
                ) == old(self).capacity().of(kind));
            }
        }
        Ok(LayoutHandle { index })
    }

    /// What an allocation with the layout `layout` and the initial writes
    /// `initial` may leave of the catalog `pre`: the catalog `post` and the
    /// answer `r`.
    ///
    /// Where the set can be allocated and its initial writes fit the layout,
    /// the set is added after those that exist, and the pool has of every
    /// kind what the layout takes less. Otherwise the answer is
    /// `LayoutCreationError` and the catalog is unchanged.
    pub open spec fn allocation_post(
        pre: BindingLayoutCatalog,
        layout: LayoutHandle,
        initial: Seq<DescriptorWrite>,
        post: BindingLayoutCatalog,
        r: Result<SetHandle, StartupError>,
    ) -> bool {
        &&& post.wf()
        &&& post.capacity() == pre.capacity()
        &&& post.max_sets() == pre.max_sets()
        &&& post.layouts() == pre.layouts()
        &&& r is Ok <==> pre.can_allocate(layout) && writes_fit(
            pre.layouts()[layout.index as int].bindings@,
            initial,
        )
        &&& r is Err ==> {
            &&& r == Err::<SetHandle, StartupError>(StartupError::LayoutCreationError)
            &&& post.available() == pre.available()
            &&& post.sets() == pre.sets()
        }
        &&& r matches Ok(handle) ==> {
            &&& handle.index == pre.sets().len()
            &&& post.sets().len() == pre.sets().len() + 1
            &&& post.sets()[handle.index as int].layout == layout
            &&& post.sets()[handle.index as int].initial@ == initial
            &&& forall|i: int|
                0 <= i < pre.sets().len() ==> #[trigger] post.sets()[i] == pre.sets()[i]
            &&& forall|kind: ResourceKind|
                (#[trigger] post.available().of(kind)) == pre.available().of(kind) - demand(
                    pre.layouts()[layout.index as int].bindings@,
                    kind,
                )
        }
    }

    /// Allocates a set with the layout `layout`, with nothing written to it.
    pub fn allocate_set(&mut self, layout: LayoutHandle) -> (r: Result<SetHandle, StartupError>)
        requires
            old(self).wf(),
        ensures
            BindingLayoutCatalog::allocation_post(
                *old(self),
                layout,
                Seq::<DescriptorWrite>::empty(),
                *final(self),
                r,
            ),
    {
        self.build_set(layout, Vec::new())
    }

    /// Allocates a set with the layout `layout` and populates it with the
    /// writes `initial`.
    pub fn build_set(&mut self, layout: LayoutHandle, initial: Vec<DescriptorWrite>) -> (r: Result<
        SetHandle,
        StartupError,
    >)
        requires
            old(self).wf(),
        ensures
            BindingLayoutCatalog::allocation_post(*old(self), layout, initial@, *final(self), r),
    {
        if layout.index >= self.layouts.len() {
            return Err(StartupError::LayoutCreationError);
        }
        if self.sets.len() >= self.max_sets as usize {
            return Err(StartupError::LayoutCreationError);
        }
        let bindings = &self.layouts[layout.index].bindings;
        if !check_writes(bindings, &initial) {
            return Err(StartupError::LayoutCreationError);
        }
        let a = take_demand(
            bindings,
            ResourceKind::AccelerationStructure,
            self.available.acceleration_structures,
        );
        let b = take_demand(bindings, ResourceKind::StorageBuffer, self.available.storage_buffers);
        let c = take_demand(bindings, ResourceKind::StorageImage, self.available.storage_images);
        let d = take_demand(bindings, ResourceKind::SampledImage, self.available.sampled_images);
        let e = take_demand(bindings, ResourceKind::Sampler, self.available.samplers);
        match (a, b, c, d, e) {
            (Some(a), Some(b), Some(c), Some(d), Some(e)) => {
                let left = PoolSizes {
                    acceleration_structures: a,
                    storage_buffers: b,
                    storage_images: c,
                    sampled_images: d,
                    samplers: e,
                };
                let index: usize = self.sets.len();
                proof {
                    assert forall|kind: ResourceKind|
                        demand(bindings@, kind) <= #[trigger] self.available.of(kind) by {
                        match kind {
                            ResourceKind::AccelerationStructure => {},
                            ResourceKind::StorageBuffer => {},
                            ResourceKind::StorageImage => {},
                            ResourceKind::SampledImage => {},
                            ResourceKind::Sampler => {},
                        }
                    }
                }
                self.available = left;
                self.sets.push(DescriptorSet { layout, initial });
                proof {
                    let n = old(self).sets().len() as int;
                    assert forall|kind: ResourceKind|
                        (#[trigger] self.available().of(kind)) == old(self).available().of(kind)
                            - demand(old(self).layouts()[layout.index as int].bindings@, kind) by {
                        match kind {
                            ResourceKind::AccelerationStructure => {},
                            ResourceKind::StorageBuffer => {},
                            ResourceKind::StorageImage => {},
                            ResourceKind::SampledImage => {},
                            ResourceKind::Sampler => {},
                        }
                    }
                    assert forall|kind: ResourceKind|
                        (#[trigger] self.available().of(kind)) + sets_demand(
                            self.layouts(),
                            self.sets(),
                            kind,
                            self.sets().len() as int,
                        ) == self.capacity().of(kind) by {
                        lemma_sets_demand_extends(
                            old(self).layouts(),
                            old(self).sets(),
                            self.layouts(),
                            self.sets(),
                            kind,
                            n,
                        );
                        assert(old(self).available().of(kind) + sets_demand(
                            old(self).layouts(),
                            old(self).sets(),
                            kind,
                            n,
                        ) == old(self).capacity().of(kind));
                        assert(self.sets()[n].layout == layout);
                    }
                }
                Ok(SetHandle { index })
            },
            _ => {
                proof {
                    assert(self.available.of(ResourceKind::AccelerationStructure)
                        == self.available.acceleration_structures);
                    assert(self.available.of(ResourceKind::StorageBuffer)
                        == self.available.storage_buffers);
                    assert(self.available.of(ResourceKind::StorageImage)
                        == self.available.storage_images);
                    assert(self.available.of(ResourceKind::SampledImage)
                        == self.available.sampled_images);
                    assert(self.available.of(ResourceKind::Sampler) == self.available.samplers);
                }
                Err(StartupError::LayoutCreationError)
            },
        }
    }
}

/// Checks whether a pool with `available` descriptors of each kind left can
/// give a set with these bindings what it takes.
pub fn covers(available: &PoolSizes, bindings: &Vec<DescriptorBindingSpec>) -> (ok: bool)
    ensures
        ok == pool_covers(*available, bindings@),
{
    let ok = take_demand(
        bindings,
        ResourceKind::AccelerationStructure,
        available.acceleration_structures,
    ).is_some() && take_demand(bindings, ResourceKind::StorageBuffer, available.storage_buffers).is_some()
        && take_demand(bindings, ResourceKind::StorageImage, available.storage_images).is_some()
        && take_demand(bindings, ResourceKind::SampledImage, available.sampled_images).is_some()
        && take_demand(bindings, ResourceKind::Sampler, available.samplers).is_some();
    proof {
        if ok {
            assert forall|kind: ResourceKind| demand(bindings@, kind) <= #[trigger] available.of(
                kind,
            ) by {
                match kind {
                    ResourceKind::AccelerationStructure => {},
                    ResourceKind::StorageBuffer => {},
                    ResourceKind::StorageImage => {},
                    ResourceKind::SampledImage => {},
                    ResourceKind::Sampler => {},
                }
            }
        } else {
            assert(available.of(ResourceKind::AccelerationStructure)
                == available.acceleration_structures);
            assert(available.of(ResourceKind::StorageBuffer) == available.storage_buffers);
            assert(available.of(ResourceKind::StorageImage) == available.storage_images);
            assert(available.of(ResourceKind::SampledImage) == available.sampled_images);
            assert(available.of(ResourceKind::Sampler) == available.samplers);
        }
    }
    ok
}

/// What a binding adds to the demand for descriptors of kind `kind`.
pub open spec fn binding_demand(b: DescriptorBindingSpec, kind: ResourceKind) -> int {
    if b.kind == kind {
        b.count as int
    } else {
        0
    }
}

/// Whether the binding `b` may follow the bindings `before` in a layout for
/// set `set`.
pub open spec fn may_follow(set: u32, before: Seq<DescriptorBindingSpec>, b: DescriptorBindingSpec) -> bool {
    &&& b.set == set
    &&& b.count > 0
    &&& b.immutable_sampler is Some ==> b.kind == ResourceKind::Sampler
    &&& before.len() > 0 ==> before.last().binding < b.binding && !before.last().variable_count
}

/// Appends a binding to the bindings of a layout under construction. The
/// demand grows by what the binding takes, and a layout stays a layout if
/// the binding may follow.
pub fn push_binding(bindings: &mut Vec<DescriptorBindingSpec>, b: DescriptorBindingSpec)
    ensures
        final(bindings)@ == old(bindings)@.push(b),
        forall|kind: ResourceKind| #[trigger]
            demand(final(bindings)@, kind) == demand(old(bindings)@, kind) + binding_demand(b, kind),
        forall|set: u32|
            layout_valid(set, old(bindings)@) && may_follow(set, old(bindings)@, b)
                ==> #[trigger] layout_valid(set, final(bindings)@),
{
    bindings.push(b);
    proof {
        let before = old(bindings)@;
        let now = bindings@;
        assert(now.drop_last() =~= before);
        assert forall|set: u32| layout_valid(set, before) && may_follow(set, before, b) implies #[trigger] layout_valid(
            set,
            now,
        ) by {
            assert forall|i: int| 0 <= i < now.len() implies #[trigger] binding_in_place(
                set,
                now,
                i,
            ) by {
                if i < before.len() {
                    assert(binding_in_place(set, before, i));
                }
            }
        }
    }
}

/// Writes that fit and more writes that fit make writes that fit.
pub proof fn lemma_writes_fit_concat(
    bindings: Seq<DescriptorBindingSpec>,
    a: Seq<DescriptorWrite>,
    b: Seq<DescriptorWrite>,
)
    requires
        writes_fit(bindings, a),
        writes_fit(bindings, b),
    ensures
        writes_fit(bindings, a + b),
{
    assert forall|k: int| 0 <= k < (a + b).len() implies write_fits(bindings, #[trigger] (a + b)[k]) by {
        if k < a.len() {
            assert((a + b)[k] == a[k]);
        } else {
            assert((a + b)[k] == b[k - a.len()]);
        }
    }
}

/// A binding of fixed length without a built-in sampler.
pub open spec fn fixed_binding(set: u32, binding: u32, kind: ResourceKind, visibility: u32, count: u32) -> DescriptorBindingSpec {
    DescriptorBindingSpec {
        set,
        binding,
        kind,
        visibility,
        count,
        variable_count: false,
        immutable_sampler: None,
    }
}

/// Makes a binding of fixed length without a built-in sampler.
pub fn make_binding(set: u32, binding: u32, kind: ResourceKind, visibility: u32, count: u32) -> (b:
    DescriptorBindingSpec)
    ensures
        b == fixed_binding(set, binding, kind, visibility, count),
{
    DescriptorBindingSpec {
        set,
        binding,
        kind,
        visibility,
        count,
        variable_count: false,
        immutable_sampler: None,
    }
}

/// The range of push constants of a pipeline layout.
#[derive(Clone, Copy, Debug, PartialEq, Eq, Structural)]
pub struct PushConstantRange {
    pub offset: u32,
    pub size: u32,
    pub stages: u32,
}

/// Whether `sizes` is exactly what one set with these bindings takes.
pub open spec fn measures(sizes: PoolSizes, bindings: Seq<DescriptorBindingSpec>) -> bool {
    &&& sizes.acceleration_structures == demand(bindings, ResourceKind::AccelerationStructure)
    &&& sizes.storage_buffers == demand(bindings, ResourceKind::StorageBuffer)
    &&& sizes.storage_images == demand(bindings, ResourceKind::StorageImage)
    &&& sizes.sampled_images == demand(bindings, ResourceKind::SampledImage)
    &&& sizes.samplers == demand(bindings, ResourceKind::Sampler)
}

/// Whether what one set with these bindings takes can be counted in 32
/// bits, kind by kind.
pub open spec fn measurable(bindings: Seq<DescriptorBindingSpec>) -> bool {
    &&& demand(bindings, ResourceKind::AccelerationStructure) <= u32::MAX
    &&& demand(bindings, ResourceKind::StorageBuffer) <= u32::MAX
    &&& demand(bindings, ResourceKind::StorageImage) <= u32::MAX
    &&& demand(bindings, ResourceKind::SampledImage) <= u32::MAX
    &&& demand(bindings, ResourceKind::Sampler) <= u32::MAX
}

/// Counts the descriptors of kind `kind` that a set with these bindings
/// takes; nothing if they cannot be counted in 32 bits.
pub fn count_demand(bindings: &Vec<DescriptorBindingSpec>, kind: ResourceKind) -> (count: Option<
    u32,
>)
    ensures
        count is Some <==> demand(bindings@, kind) <= u32::MAX,
        count matches Some(n) ==> n == demand(bindings@, kind),
{
    match take_demand(bindings, kind, u32::MAX) {
        Some(rest) => Some(u32::MAX - rest),
        None => None,
    }
}

/// Measures what one set with these bindings takes from a pool; nothing if
/// it cannot be counted in 32 bits.
pub fn measure(bindings: &Vec<DescriptorBindingSpec>) -> (sizes: Option<PoolSizes>)
    ensures
        sizes is Some <==> measurable(bindings@),
        sizes matches Some(s) ==> measures(s, bindings@),
{
    let a = count_demand(bindings, ResourceKind::AccelerationStructure);
    let b = count_demand(bindings, ResourceKind::StorageBuffer);
    let c = count_demand(bindings, ResourceKind::StorageImage);
    let d = count_demand(bindings, ResourceKind::SampledImage);
    let e = count_demand(bindings, ResourceKind::Sampler);
    match (a, b, c, d, e) {
        (Some(a), Some(b), Some(c), Some(d), Some(e)) => Some(
            PoolSizes {
                acceleration_structures: a,
                storage_buffers: b,
                storage_images: c,
                sampled_images: d,
                samplers: e,
            },
        ),
        _ => None,
    }
}

impl PoolSizes {
    /// Whether the sum of two sizes can be counted in 32 bits, kind by kind.
    pub open spec fn addable(self, other: PoolSizes) -> bool {
        &&& self.acceleration_structures + other.acceleration_structures <= u32::MAX
        &&& self.storage_buffers + other.storage_buffers <= u32::MAX
        &&& self.storage_images + other.storage_images <= u32::MAX
        &&& self.sampled_images + other.sampled_images <= u32::MAX
        &&& self.samplers + other.samplers <= u32::MAX
    }

    /// The sum of two sizes, kind by kind.
    pub open spec fn sum(self, other: PoolSizes) -> PoolSizes {
        PoolSizes {
            acceleration_structures: (self.acceleration_structures
                + other.acceleration_structures) as u32,
            storage_buffers: (self.storage_buffers + other.storage_buffers) as u32,
            storage_images: (self.storage_images + other.storage_images) as u32,
            sampled_images: (self.sampled_images + other.sampled_images) as u32,
            samplers: (self.samplers + other.samplers) as u32,
        }
    }

    /// Adds two sizes, kind by kind; nothing if a sum cannot be counted in
    /// 32 bits.
    pub fn plus(&self, other: &PoolSizes) -> (total: Option<PoolSizes>)
        ensures
            total is Some <==> self.addable(*other),
            total matches Some(t) ==> t == self.sum(*other),
    {
        let a = self.acceleration_structures.checked_add(other.acceleration_structures);
        let b = self.storage_buffers.checked_add(other.storage_buffers);
        let c = self.storage_images.checked_add(other.storage_images);
        let d = self.sampled_images.checked_add(other.sampled_images);
        let e = self.samplers.checked_add(other.samplers);
        match (a, b, c, d, e) {
            (Some(a), Some(b), Some(c), Some(d), Some(e)) => Some(
                PoolSizes {
                    acceleration_structures: a,
                    storage_buffers: b,
                    storage_images: c,
                    sampled_images: d,
                    samplers: e,
                },
            ),
            _ => None,
        }
    }
}

} // verus!
