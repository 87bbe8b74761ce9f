use vstd::prelude::*;

use crate::error::RenderError;
use crate::handles::{Sampler, StorageBuffer, TextureBuffer, UniformBuffer};
use crate::pipeline::PipelineBackend;

verus! {

/// The shader stage a binding is visible to; uninterpreted metadata passed
/// through to the backend.
#[derive(Clone, Copy, Debug, PartialEq, Eq, Structural)]
pub enum Stage {
    /// Vertex shader stage.
    Vertex,
    /// Fragment shader stage.
    Fragment,
    /// Compute shader stage.
    Compute,
    /// Any stage.
    All,
}

/// The resource kind a binding slot accepts. A compiled pipeline records
/// one kind per declared slot, and binding resolution matches entries
/// against them positionally.
#[derive(Clone, Copy, Debug, PartialEq, Eq, Structural)]
pub enum BindingKind {
    /// A uniform buffer slot.
    Uniform,
    /// A 2D texture slot.
    Texture,
    /// A 3D texture slot.
    Texture3D,
    /// A storage texture slot.
    StorageTexture,
    /// A sampler slot.
    Sampler,
    /// A storage buffer slot.
    Storage,
    /// A storage buffer bound through a uniform slot.
    StorageAsUniform,
}

/// A summary of the backend resource a resolved slot points at.
#[derive(Clone, Copy, Debug, PartialEq, Eq, Structural)]
pub enum ResourceSnapshot {
    /// A uniform or storage allocation of the given size in bytes.
    Buffer {
        /// Bytes of the allocation.
        size: usize,
    },
    /// A texture allocation of the given extent.
    Texture {
        /// Texture width in texels.
        width: u32,
        /// Texture height in texels.
        height: u32,
        /// Number of layers.
        layers: usize,
    },
    /// A sampler.
    Sampler,
}

/// One declarative binding entry: a label, the stage it is visible to, and
/// the resource handle it binds.
#[derive(Clone, Debug)]
pub enum Binding {
    /// Uniform buffer binding.
    Uniform(String, Stage, UniformBuffer),
    /// 2D texture binding.
    Texture(String, Stage, TextureBuffer),
    /// 3D texture binding.
    Texture3D(String, Stage, TextureBuffer),
    /// Storage texture binding.
    StorageTexture(String, Stage, TextureBuffer),
    /// Texture sampler binding.
    Sampler(String, Stage, Sampler),
    /// Storage buffer binding.
    Storage(String, Stage, StorageBuffer),
    /// Storage buffer bound as a uniform.
    StorageAsUniform(String, Stage, StorageBuffer),
}

impl Binding {
    /// The entry's label, as a sequence of characters.
    pub open spec fn spec_label(&self) -> Seq<char> {
        match self {
            Binding::Uniform(l, _, _) => l@,
            Binding::Texture(l, _, _) => l@,
            Binding::Texture3D(l, _, _) => l@,
            Binding::StorageTexture(l, _, _) => l@,
            Binding::Sampler(l, _, _) => l@,
            Binding::Storage(l, _, _) => l@,
            Binding::StorageAsUniform(l, _, _) => l@,
        }
    }

    /// The stage the entry is visible to.
    pub open spec fn spec_stage(&self) -> Stage {
        match self {
            Binding::Uniform(_, s, _) => *s,
            Binding::Texture(_, s, _) => *s,
            Binding::Texture3D(_, s, _) => *s,
            Binding::StorageTexture(_, s, _) => *s,
            Binding::Sampler(_, s, _) => *s,
            Binding::Storage(_, s, _) => *s,
            Binding::StorageAsUniform(_, s, _) => *s,
        }
    }

    /// The resource kind the entry binds.
    pub open spec fn spec_kind(&self) -> BindingKind {
        match self {
            Binding::Uniform(_, _, _) => BindingKind::Uniform,
            Binding::Texture(_, _, _) => BindingKind::Texture,
            Binding::Texture3D(_, _, _) => BindingKind::Texture3D,
            Binding::StorageTexture(_, _, _) => BindingKind::StorageTexture,
            Binding::Sampler(_, _, _) => BindingKind::Sampler,
            Binding::Storage(_, _, _) => BindingKind::Storage,
            Binding::StorageAsUniform(_, _, _) => BindingKind::StorageAsUniform,
        }
    }

    /// Whether the referenced resource handle is loaded.
    pub open spec fn spec_resource_loaded(&self) -> bool {
        match self {
            Binding::Uniform(_, _, b) => b.spec_loaded(),
            Binding::Texture(_, _, b) => b.spec_loaded(),
            Binding::Texture3D(_, _, b) => b.spec_loaded(),
            Binding::StorageTexture(_, _, b) => b.spec_loaded(),
            Binding::Sampler(_, _, b) => b.spec_loaded(),
            Binding::Storage(_, _, b) => b.spec_loaded(),
            Binding::StorageAsUniform(_, _, b) => b.spec_loaded(),
        }
    }

    /// The summary of the referenced resource, with zero extents before the
    /// resource was loaded.
    pub open spec fn spec_snapshot(&self) -> ResourceSnapshot {
        match self {
            Binding::Uniform(_, _, b) => ResourceSnapshot::Buffer {
                size: if b.spec_loaded() { b.spec_size() } else { 0 },
            },
            Binding::Texture(_, _, b) => snapshot_of_texture(*b),
            Binding::Texture3D(_, _, b) => snapshot_of_texture(*b),
            Binding::StorageTexture(_, _, b) => snapshot_of_texture(*b),
            Binding::Sampler(_, _, _) => ResourceSnapshot::Sampler,
            Binding::Storage(_, _, b) => ResourceSnapshot::Buffer {
                size: if b.spec_loaded() { b.spec_size() } else { 0 },
            },
            Binding::StorageAsUniform(_, _, b) => ResourceSnapshot::Buffer {
                size: if b.spec_loaded() { b.spec_size() } else { 0 },
            },
        }
    }

    /// The fully resolved view of the entry.
    pub open spec fn slot_view(&self) -> SlotV {
        SlotV {
            label: self.spec_label(),
            stage: self.spec_stage(),
            kind: self.spec_kind(),
            resource: self.spec_snapshot(),
        }
    }

    /// Reports the entry's resource kind.
    pub fn kind(&self) -> (k: BindingKind)
        ensures
            k == self.spec_kind(),
    {
        match self {
            Binding::Uniform(_, _, _) => BindingKind::Uniform,
            Binding::Texture(_, _, _) => BindingKind::Texture,
            Binding::Texture3D(_, _, _) => BindingKind::Texture3D,
            Binding::StorageTexture(_, _, _) => BindingKind::StorageTexture,
            Binding::Sampler(_, _, _) => BindingKind::Sampler,
            Binding::Storage(_, _, _) => BindingKind::Storage,
            Binding::StorageAsUniform(_, _, _) => BindingKind::StorageAsUniform,
        }
    }

    /// Reports the entry's stage.
    pub fn stage(&self) -> (s: Stage)
        ensures
            s == self.spec_stage(),
    {
        match self {
            Binding::Uniform(_, s, _) => *s,
            Binding::Texture(_, s, _) => *s,
            Binding::Texture3D(_, s, _) => *s,
            Binding::StorageTexture(_, s, _) => *s,
            Binding::Sampler(_, s, _) => *s,
            Binding::Storage(_, s, _) => *s,
            Binding::StorageAsUniform(_, s, _) => *s,
        }
    }

    /// Reports whether the referenced resource handle is loaded.
    pub fn resource_loaded(&self) -> (r: bool)
        ensures
            r == self.spec_resource_loaded(),
    {
        match self {
            Binding::Uniform(_, _, b) => b.loaded(),
            Binding::Texture(_, _, b) => b.loaded(),
            Binding::Texture3D(_, _, b) => b.loaded(),
            Binding::StorageTexture(_, _, b) => b.loaded(),
            Binding::Sampler(_, _, b) => b.loaded(),
            Binding::Storage(_, _, b) => b.loaded(),
            Binding::StorageAsUniform(_, _, b) => b.loaded(),
        }
    }

    /// Copies the entry's label out.
    pub fn label_string(&self) -> (r: String)
        ensures
            r@ == self.spec_label(),
    {
        match self {
            Binding::Uniform(l, _, _) => l.clone(),
            Binding::Texture(l, _, _) => l.clone(),
            Binding::Texture3D(l, _, _) => l.clone(),
            Binding::StorageTexture(l, _, _) => l.clone(),
            Binding::Sampler(l, _, _) => l.clone(),
            Binding::Storage(l, _, _) => l.clone(),
            Binding::StorageAsUniform(l, _, _) => l.clone(),
        }
    }

    /// Summarises the referenced resource.
    pub fn snapshot(&self) -> (r: ResourceSnapshot)
        ensures
            r == self.spec_snapshot(),
    {
        match self {
            Binding::Uniform(_, _, b) => ResourceSnapshot::Buffer { size: b.size() },
            Binding::Texture(_, _, b) => texture_snapshot(b),
            Binding::Texture3D(_, _, b) => texture_snapshot(b),
            Binding::StorageTexture(_, _, b) => texture_snapshot(b),
            Binding::Sampler(_, _, _) => ResourceSnapshot::Sampler,
            Binding::Storage(_, _, b) => ResourceSnapshot::Buffer { size: b.size() },
            Binding::StorageAsUniform(_, _, b) => ResourceSnapshot::Buffer { size: b.size() },
        }
    }
}

/// The summary of a texture buffer, with zero extents before it was loaded.
pub open spec fn snapshot_of_texture(b: TextureBuffer) -> ResourceSnapshot {
    ResourceSnapshot::Texture {
        width: if b.spec_loaded() { b.spec_alloc().width } else { 0 },
        height: if b.spec_loaded() { b.spec_alloc().height } else { 0 },
        layers: if b.spec_loaded() { b.spec_alloc().layers } else { 0 },
    }
}

/// Summarises a texture buffer.
fn texture_snapshot(b: &TextureBuffer) -> (r: ResourceSnapshot)
    ensures
        r == snapshot_of_texture(*b),
{
    if b.loaded() {
        let a = b.allocation();
        ResourceSnapshot::Texture { width: a.width, height: a.height, layers: a.layers }
    } else {
        ResourceSnapshot::Texture { width: 0, height: 0, layers: 0 }
    }
}

/// A named, ordered list of binding entries submitted together.
#[derive(Clone, Debug)]
pub struct BindGroup {
    label: String,
    bindings: Vec<Binding>,
}

impl BindGroup {
    /// The group's label.
    pub closed spec fn spec_label(&self) -> Seq<char> {
        self.label@
    }

    /// The group's entries, in submission order.
    pub closed spec fn spec_bindings(&self) -> Seq<Binding> {
        self.bindings@
    }

    /// Constructs a new bind group.
    pub fn new(label: String, bindings: Vec<Binding>) -> (g: Self)
        ensures
            g.spec_label() == label@,
            g.spec_bindings() == bindings@,
    {
        BindGroup { label, bindings }
    }

    /// The number of entries.
    pub fn len(&self) -> (n: usize)
        ensures
            n == self.spec_bindings().len(),
    {
        self.bindings.len()
    }

    /// The entry at the given position.
    pub fn binding(&self, i: usize) -> (b: &Binding)
        requires
            i < self.spec_bindings().len(),
        ensures
            *b == self.spec_bindings()[i as int],
    {
        &self.bindings[i]
    }
}

/// The resolved view of one slot: what the backend receives for it.
pub struct SlotV {
    /// The label of the entry that filled the slot.
    pub label: Seq<char>,
    /// The stage the entry is visible to.
    pub stage: Stage,
    /// The resource kind bound.
    pub kind: BindingKind,
    /// A summary of the bound resource.
    pub resource: ResourceSnapshot,
}

/// One resolved slot of a bindings object.
#[derive(Clone, Debug, PartialEq)]
pub struct ResolvedSlot {
    /// The label of the entry that filled the slot.
    pub label: String,
    /// The stage the entry is visible to.
    pub stage: Stage,
    /// The resource kind bound.
    pub kind: BindingKind,
    /// A summary of the bound resource.
    pub resource: ResourceSnapshot,
}

impl View for ResolvedSlot {
    type V = SlotV;

    open spec fn view(&self) -> SlotV {
        SlotV { label: self.label@, stage: self.stage, kind: self.kind, resource: self.resource }
    }
}

impl ResolvedSlot {
    /// Resolves one binding entry into a slot.
    pub fn of_binding(b: &Binding) -> (r: Self)
        ensures
            r@ == b.slot_view(),
    {
        ResolvedSlot {
            label: b.label_string(),
            stage: b.stage(),
            kind: b.kind(),
            resource: b.snapshot(),
        }
    }
}

/// The view of a sequence of resolved slots.
pub open spec fn slots_view(slots: Seq<ResolvedSlot>) -> Seq<SlotV> {
    slots.map_values(|s: ResolvedSlot| s@)
}

/// Extending the slots extends the view by the new slot's view.
pub proof fn lemma_slots_view_push(slots: Seq<ResolvedSlot>, x: ResolvedSlot)
    ensures
        slots_view(slots.push(x)) == slots_view(slots).push(x@),
{
    assert(slots_view(slots.push(x)) =~= slots_view(slots).push(x@));
}

/// The slot kinds an entry list declares, in order.
pub open spec fn kinds_of_bindings(bindings: Seq<Binding>) -> Seq<BindingKind> {
    bindings.map_values(|b: Binding| b.spec_kind())
}

/// Extending the entries extends the declared kinds by the new entry's kind.
pub proof fn lemma_kinds_of_bindings_take_succ(bindings: Seq<Binding>, j: int)
    requires
        0 <= j < bindings.len(),
    ensures
        kinds_of_bindings(bindings.take(j + 1)) == kinds_of_bindings(bindings.take(j)).push(
            bindings[j].spec_kind(),
        ),
{
    assert(bindings.take(j + 1) =~= bindings.take(j).push(bindings[j]));
    assert(kinds_of_bindings(bindings.take(j).push(bindings[j])) =~= kinds_of_bindings(
        bindings.take(j),
    ).push(bindings[j].spec_kind()));
}

/// The slot kinds one group declares.
pub open spec fn kinds_of_group(g: BindGroup) -> Seq<BindingKind> {
    kinds_of_bindings(g.spec_bindings())
}

/// The expected slot kinds a list of groups declares, group by group.
pub open spec fn groups_kinds(groups: Seq<BindGroup>) -> Seq<Seq<BindingKind>> {
    groups.map_values(|g: BindGroup| kinds_of_group(g))
}

/// Extending the group list extends the declared kinds by the new group's.
pub proof fn lemma_groups_kinds_take_succ(groups: Seq<BindGroup>, i: int)
    requires
        0 <= i < groups.len(),
    ensures
        groups_kinds(groups.take(i + 1)) == groups_kinds(groups.take(i)).push(
            kinds_of_group(groups[i]),
        ),
{
    assert(groups.take(i + 1) =~= groups.take(i).push(groups[i]));
    assert(groups_kinds(groups.take(i).push(groups[i])) =~= groups_kinds(groups.take(i)).push(
        kinds_of_group(groups[i]),
    ));
}

/// Whether one group fits one expected slot list: same length, the right
/// kind in every position, and every referenced resource loaded.
pub open spec fn group_matches(slots: Seq<BindingKind>, g: BindGroup) -> bool {
    &&& g.spec_bindings().len() == slots.len()
    &&& forall|j: int|
        0 <= j < slots.len() ==> {
            &&& (#[trigger] g.spec_bindings()[j]).spec_kind() == slots[j]
            &&& g.spec_bindings()[j].spec_resource_loaded()
        }
}

/// Whether an ordered group list fits a compiled pipeline's expected
/// layout, positionally.
pub open spec fn groups_match(slots: Seq<Seq<BindingKind>>, groups: Seq<BindGroup>) -> bool {
    &&& groups.len() == slots.len()
    &&& forall|i: int| 0 <= i < groups.len() ==> group_matches(slots[i], #[trigger] groups[i])
}

/// Whether every entry of every group references a loaded resource.
pub open spec fn groups_resources_loaded(groups: Seq<BindGroup>) -> bool {
    forall|i: int, j: int|
        0 <= i < groups.len() && 0 <= j < groups[i].spec_bindings().len()
            ==> (#[trigger] groups[i].spec_bindings()[j]).spec_resource_loaded()
}

/// Reports whether every entry of every group references a loaded
/// resource.
pub fn groups_resources_ok(groups: &Vec<BindGroup>) -> (r: bool)
    ensures
        r == groups_resources_loaded(groups@),
{
    let mut i: usize = 0;
    while i < groups.len()
        invariant
            i <= groups@.len(),
            forall|i2: int, j2: int|
                0 <= i2 < i && 0 <= j2 < groups@[i2].spec_bindings().len()
                    ==> (#[trigger] groups@[i2].spec_bindings()[j2]).spec_resource_loaded(),
        decreases groups@.len() - i,
    {
        let g = &groups[i];
        let mut j: usize = 0;
        while j < g.len()
            invariant
                j <= g.spec_bindings().len(),
                i < groups@.len(),
                *g == groups@[i as int],
                forall|i2: int, j2: int|
                    0 <= i2 < i && 0 <= j2 < groups@[i2].spec_bindings().len()
                        ==> (#[trigger] groups@[i2].spec_bindings()[j2]).spec_resource_loaded(),
                forall|j2: int|
                    0 <= j2 < j ==> (#[trigger] g.spec_bindings()[j2]).spec_resource_loaded(),
            decreases g.spec_bindings().len() - j,
        {
            if !g.binding(j).resource_loaded() {
                return false;
            }
            j = j + 1;
        }
        i = i + 1;
    }
    true
}

/// The resolved slots one group contributes.
pub open spec fn resolve_group(g: BindGroup) -> Seq<SlotV> {
    g.spec_bindings().map_values(|b: Binding| b.slot_view())
}

/// The resolved slots of an ordered group list, flattened in order.
pub open spec fn resolve_groups(groups: Seq<BindGroup>) -> Seq<SlotV>
    decreases groups.len(),
{
    if groups.len() == 0 {
        Seq::empty()
    } else {
        resolve_groups(groups.drop_last()) + resolve_group(groups.last())
    }
}

/// A group list always fits the layout recorded from it, as long as every
/// referenced resource is loaded: matching is positional, and a freshly
/// compiled pipeline records exactly the kinds the list declares.
pub proof fn lemma_fresh_groups_match(groups: Seq<BindGroup>)
    requires
        groups_resources_loaded(groups),
    ensures
        groups_match(groups_kinds(groups), groups),
{
    assert forall|i: int| 0 <= i < groups.len() implies group_matches(
        groups_kinds(groups)[i],
        #[trigger] groups[i],
    ) by {
        let slots = groups_kinds(groups)[i];
        assert forall|j: int| 0 <= j < slots.len() implies {
            &&& (#[trigger] groups[i].spec_bindings()[j]).spec_kind() == slots[j]
            &&& groups[i].spec_bindings()[j].spec_resource_loaded()
        } by {
            assert(slots[j] == groups[i].spec_bindings()[j].spec_kind());
        }
    }
}

/// Binding resolution is deterministic: two bindings objects resolved from
/// the same ordered group list against the same compiled pipeline are
/// structurally equal, slot for slot.
pub proof fn lemma_resolution_deterministic(
    first: Bindings,
    second: Bindings,
    pipeline: PipelineBackend,
    groups: Seq<BindGroup>,
)
    requires
        first@ == resolve_groups(groups),
        second@ == resolve_groups(groups),
        first.spec_instance() == pipeline.spec_instance(),
        second.spec_instance() == pipeline.spec_instance(),
    ensures
        first@ == second@,
        first.spec_instance() == second.spec_instance(),
{
}

/// A resolved, backend-ready binding set, produced by loading an ordered
/// group list against a specific compiled pipeline. It records the compiled
/// pipeline instance it was resolved against; if that pipeline is dropped
/// or recompiled the bindings are stale and must be rebuilt.
#[derive(Clone, Debug, PartialEq)]
pub struct Bindings {
    slots: Vec<ResolvedSlot>,
    pipeline_instance: u64,
}

impl View for Bindings {
    type V = Seq<SlotV>;

    closed spec fn view(&self) -> Seq<SlotV> {
        slots_view(self.slots@)
    }
}

impl Bindings {
    /// The compiled pipeline instance the bindings were resolved against;
    /// zero before any resolution.
    pub closed spec fn spec_instance(&self) -> u64 {
        self.pipeline_instance
    }

    /// The number of resolved slots.
    pub fn len(&self) -> (n: usize)
        ensures
            n == self@.len(),
    {
        self.slots.len()
    }

    /// The resolved slot at the given position.
    pub fn slot(&self, i: usize) -> (s: &ResolvedSlot)
        requires
            i < self@.len(),
        ensures
            s@ == self@[i as int],
    {
        &self.slots[i]
    }

    /// The compiled pipeline instance the bindings were resolved against.
    pub fn instance(&self) -> (r: u64)
        ensures
            r == self.spec_instance(),
    {
        self.pipeline_instance
    }

    /// Resolves the given ordered group list against a compiled pipeline's
    /// expected layout, replacing these bindings on success and leaving
    /// them untouched on failure. Resolution succeeds exactly when the
    /// groups fit the layout positionally and every referenced resource is
    /// loaded.
    pub fn load(&mut self, pipeline: &PipelineBackend, groups: &Vec<BindGroup>) -> (r: Result<
        (),
        RenderError,
    >)
        ensures
            r is Ok <==> groups_match(pipeline.spec_slots(), groups@),
            r is Ok ==> final(self)@ == resolve_groups(groups@) && final(self).spec_instance()
                == pipeline.spec_instance(),
            r is Err ==> *final(self) == *old(self) && r == Err::<(), RenderError>(
                RenderError::BindingMismatch,
            ),
    {
        if groups.len() != pipeline.group_count() {
            return Err(RenderError::BindingMismatch);
        }
        let mut resolved: Vec<ResolvedSlot> = Vec::new();
        let mut i: usize = 0;
        while i < groups.len()
            invariant
                i <= groups@.len(),
                groups@.len() == pipeline.spec_slots().len(),
                forall|i2: int|
                    0 <= i2 < i ==> group_matches(
                        pipeline.spec_slots()[i2],
                        #[trigger] groups@[i2],
                    ),
                slots_view(resolved@) == resolve_groups(groups@.take(i as int)),
            decreases groups@.len() - i,
        {
            let g = &groups[i];
            if g.len() != pipeline.group_len(i) {
                return Err(RenderError::BindingMismatch);
            }
            let mut j: usize = 0;
            while j < g.len()
                invariant
                    j <= g.spec_bindings().len(),
                    i < groups@.len(),
                    groups@.len() == pipeline.spec_slots().len(),
                    *g == groups@[i as int],
                    g.spec_bindings().len() == pipeline.spec_slots()[i as int].len(),
                    forall|j2: int|
                        0 <= j2 < j ==> {
                            &&& (#[trigger] g.spec_bindings()[j2]).spec_kind()
                                == pipeline.spec_slots()[i as int][j2]
                            &&& g.spec_bindings()[j2].spec_resource_loaded()
                        },
                    slots_view(resolved@) == resolve_groups(groups@.take(i as int))
                        + resolve_group(groups@[i as int]).take(j as int),
                decreases g.spec_bindings().len() - j,
            {
                let b = g.binding(j);
                if !(b.kind() == pipeline.slot_kind(i, j)) || !b.resource_loaded() {
                    proof {
                        assert(!group_matches(pipeline.spec_slots()[i as int], groups@[i as int]));
                    }
                    return Err(RenderError::BindingMismatch);
                }
                let ghost r0 = resolved@;
                resolved.push(ResolvedSlot::of_binding(b));
                proof {
                    let rg = resolve_group(groups@[i as int]);
                    let prev = resolve_groups(groups@.take(i as int));
                    let x = resolved@.last();
                    assert(resolved@ == r0.push(x));
                    lemma_slots_view_push(r0, x);
                    assert(rg[j as int] == groups@[i as int].spec_bindings()[j as int].slot_view());
                    assert(x@ == rg[j as int]);
                    assert(rg.take(j + 1) =~= rg.take(j as int).push(rg[j as int]));
                    assert((prev + rg.take(j as int)).push(rg[j as int]) =~= prev + rg.take(j as int).push(
                        rg[j as int],
                    ));
                    assert(slots_view(resolved@) == prev + rg.take(j + 1));
                }
                j = j + 1;
            }
            proof {
                let rg = resolve_group(groups@[i as int]);
                assert(rg.take(g.spec_bindings().len() as int) =~= rg);
                assert(groups@.take(i + 1).drop_last() =~= groups@.take(i as int));
                assert(groups@.take(i + 1).last() == groups@[i as int]);
                assert(slots_view(resolved@) =~= resolve_groups(groups@.take(i + 1)));
            }
            i = i + 1;
        }
        proof {
            assert(groups@.take(groups@.len() as int) =~= groups@);
        }
        self.slots = resolved;
        self.pipeline_instance = pipeline.instance();
        Ok(())
    }
}

impl Default for Bindings {
    /// An empty binding set, resolved against no pipeline.
    fn default() -> (b: Self)
        ensures
            b@ == Seq::<SlotV>::empty(),
            b.spec_instance() == 0,
    {
        Bindings { slots: Vec::new(), pipeline_instance: 0 }
    }
}

} // verus!
