use vstd::prelude::*;

use crate::assets::Mesh;
use crate::binding::{
    BindGroup, BindingKind, Bindings, groups_kinds, kinds_of_bindings, kinds_of_group,
    lemma_groups_kinds_take_succ, lemma_kinds_of_bindings_take_succ,
};
use crate::ids::Id;
use crate::shader::Shader;

verus! {

/// A scissors rectangle restricting a draw to part of the viewport.
#[derive(Clone, Copy, Debug, PartialEq, Eq, Structural)]
pub struct ScissorsRect {
    /// Minimal clip position on the x axis.
    pub clip_min_x: u32,
    /// Minimal clip position on the y axis.
    pub clip_min_y: u32,
    /// Clip width.
    pub width: u32,
    /// Clip height.
    pub height: u32,
}

/// Per-draw options carried by a caller-held pipeline value.
#[derive(Clone, Copy, Debug, PartialEq)]
pub struct Options {
    /// Optional scissors rectangle.
    pub scissors_rect: Option<ScissorsRect>,
    /// First index of the indexed draw range.
    pub start_index: u32,
    /// One past the last index of the indexed draw range.
    pub end_index: u32,
}

impl Default for Options {
    /// No scissors, and a draw range of one instance.
    fn default() -> (o: Self)
        ensures
            o == (Options { scissors_rect: None, start_index: 0, end_index: 1 }),
    {
        Options { scissors_rect: None, start_index: 0, end_index: 1 }
    }
}

/// The mode of the depth buffer a pipeline is compiled with.
#[derive(Clone, Copy, Debug, PartialEq, Eq, Structural)]
pub enum DepthBufferMode {
    /// Read-only mode.
    Read,
    /// Read and write mode.
    Write,
    /// Depth buffer disabled.
    Disabled,
}

/// Options a pipeline is compiled with.
#[derive(Clone, Copy, Debug, PartialEq, Eq, Structural)]
pub struct PipelineOptions {
    /// Depth buffer mode.
    pub depth_buffer_mode: DepthBufferMode,
    /// Whether back-face culling is disabled.
    pub disable_cull_mode: bool,
}

impl Default for PipelineOptions {
    /// Depth writes on, culling enabled.
    fn default() -> (o: Self)
        ensures
            o == (PipelineOptions {
                depth_buffer_mode: DepthBufferMode::Write,
                disable_cull_mode: false,
            }),
    {
        PipelineOptions { depth_buffer_mode: DepthBufferMode::Write, disable_cull_mode: false }
    }
}

/// The transient description a caller hands to `bind`: the shader to
/// compile for, the declared bind groups, an optional mesh deciding that
/// the pipeline is a render one, and compile options. It exists only for
/// the duration of the call and is never stored.
#[derive(Clone, Debug)]
pub struct PipelineLayout {
    /// Name of the pipeline.
    pub label: String,
    /// Mesh the pipeline draws; a layout without one compiles a compute
    /// pipeline.
    pub mesh: Option<Mesh>,
    /// The shader asset the pipeline is compiled from.
    pub shader: Shader,
    /// The declared bind groups, in slot order.
    pub bindings: Vec<BindGroup>,
    /// Compile options.
    pub options: PipelineOptions,
}

/// Whether a compiled pipeline draws or dispatches.
#[derive(Clone, Copy, Debug, PartialEq, Eq, Structural)]
pub enum PipelineKind {
    /// A graphics pipeline, run by `run`.
    Render,
    /// A compute pipeline, run by `compute`.
    Compute,
}

/// The kind of pipeline a layout compiles into: a layout with a mesh
/// compiles a render pipeline, one without compiles a compute pipeline.
pub open spec fn layout_kind(layout: PipelineLayout) -> PipelineKind {
    if layout.mesh is Some {
        PipelineKind::Render
    } else {
        PipelineKind::Compute
    }
}

/// A compiled pipeline object, owned by the cache and only ever referenced
/// by shader identity. It records the slot kinds its layout declared, the
/// pipeline kind, and the instance number the cache accounts it under, so
/// that bindings resolved against a dropped or recompiled pipeline can be
/// told apart from fresh ones.
#[derive(Clone, Debug)]
pub struct PipelineBackend {
    kind: PipelineKind,
    slot_groups: Vec<Vec<BindingKind>>,
    instance: u64,
}

/// The view of a list of slot-kind groups.
pub open spec fn slot_groups_view(groups: Seq<Vec<BindingKind>>) -> Seq<Seq<BindingKind>> {
    groups.map_values(|g: Vec<BindingKind>| g@)
}

/// Extending the list extends the view by the new group's view.
proof fn lemma_slot_groups_view_push(groups: Seq<Vec<BindingKind>>, x: Vec<BindingKind>)
    ensures
        slot_groups_view(groups.push(x)) == slot_groups_view(groups).push(x@),
{
    assert(slot_groups_view(groups.push(x)) =~= slot_groups_view(groups).push(x@));
}

impl PipelineBackend {
    /// The expected slot kinds, group by group.
    pub closed spec fn spec_slots(&self) -> Seq<Seq<BindingKind>> {
        slot_groups_view(self.slot_groups@)
    }

    /// Whether the pipeline draws or dispatches.
    pub closed spec fn spec_kind(&self) -> PipelineKind {
        self.kind
    }

    /// The instance number the cache accounts the pipeline under.
    pub closed spec fn spec_instance(&self) -> u64 {
        self.instance
    }

    /// Compiles a pipeline object from a layout: only a layout whose
    /// shader module is already compiled can be built, and the result
    /// records exactly the slot kinds the layout declares.
    pub fn new(layout: &PipelineLayout, instance: u64) -> (pb: Self)
        requires
            layout.shader.spec_loaded(),
        ensures
            pb.spec_slots() == groups_kinds(layout.bindings@),
            pb.spec_kind() == layout_kind(*layout),
            pb.spec_instance() == instance,
    {
        let mut slot_groups: Vec<Vec<BindingKind>> = Vec::new();
        let mut i: usize = 0;
        while i < layout.bindings.len()
            invariant
                i <= layout.bindings@.len(),
                slot_groups_view(slot_groups@) == groups_kinds(layout.bindings@.take(i as int)),
            decreases layout.bindings@.len() - i,
        {
            let g = &layout.bindings[i];
            let mut kinds: Vec<BindingKind> = Vec::new();
            let mut j: usize = 0;
            while j < g.len()
                invariant
                    j <= g.spec_bindings().len(),
                    i < layout.bindings@.len(),
                    *g == layout.bindings@[i as int],
                    kinds@ == kinds_of_bindings(g.spec_bindings().take(j as int)),
                decreases g.spec_bindings().len() - j,
            {
                kinds.push(g.binding(j).kind());
                proof {
                    lemma_kinds_of_bindings_take_succ(g.spec_bindings(), j as int);
                }
                j = j + 1;
            }
            proof {
                assert(g.spec_bindings().take(g.spec_bindings().len() as int)
                    =~= g.spec_bindings());
            }
            let ghost sg0 = slot_groups@;
            slot_groups.push(kinds);
            proof {
                let x = slot_groups@.last();
                assert(slot_groups@ == sg0.push(x));
                lemma_slot_groups_view_push(sg0, x);
                assert(x@ == kinds_of_group(layout.bindings@[i as int]));
                lemma_groups_kinds_take_succ(layout.bindings@, i as int);
                assert(slot_groups_view(slot_groups@) == groups_kinds(
                    layout.bindings@.take(i + 1),
                ));
            }
            i = i + 1;
        }
        proof {
            assert(layout.bindings@.take(layout.bindings@.len() as int) =~= layout.bindings@);
        }
        let kind = match &layout.mesh {
            Some(_) => PipelineKind::Render,
            None => PipelineKind::Compute,
        };
        PipelineBackend { kind, slot_groups, instance }
    }

    /// The number of expected groups.
    pub fn group_count(&self) -> (n: usize)
        ensures
            n == self.spec_slots().len(),
    {
        self.slot_groups.len()
    }

    /// The number of expected slots in one group.
    pub fn group_len(&self, i: usize) -> (n: usize)
        requires
            i < self.spec_slots().len(),
        ensures
            n == self.spec_slots()[i as int].len(),
    {
        self.slot_groups[i].len()
    }

    /// The expected kind of one slot.
    pub fn slot_kind(&self, i: usize, j: usize) -> (k: BindingKind)
        requires
            i < self.spec_slots().len(),
            j < self.spec_slots()[i as int].len(),
        ensures
            k == self.spec_slots()[i as int][j as int],
    {
        let g = &self.slot_groups[i];
        g[j]
    }

    /// Whether the pipeline draws or dispatches.
    pub fn kind(&self) -> (k: PipelineKind)
        ensures
            k == self.spec_kind(),
    {
        self.kind
    }

    /// The instance number the cache accounts the pipeline under.
    pub fn instance(&self) -> (r: u64)
        ensures
            r == self.spec_instance(),
    {
        self.instance
    }
}

/// The caller-held pipeline value: the shader identity it draws with, the
/// bindings last resolved for it, and its per-draw options. `bind`
/// replaces the bindings; `run` and `compute` read them.
#[derive(Clone, Debug)]
pub struct Pipeline {
    /// Identity of the shader whose compiled pipeline is used.
    pub shader: Id<Shader>,
    /// The bindings last resolved by `bind`.
    pub bindings: Bindings,
    /// Per-draw options.
    pub options: Options,
}

impl Pipeline {
    /// A pipeline value for the given shader, with empty bindings and
    /// default options.
    pub fn new(shader: Id<Shader>) -> (p: Self)
        ensures
            p.shader == shader,
            p.bindings@.len() == 0,
            p.options == (Options { scissors_rect: None, start_index: 0, end_index: 1 }),
    {
        Pipeline { shader, bindings: Bindings::default(), options: Options::default() }
    }
}

impl Default for Pipeline {
    /// A pipeline value for the null shader identity.
    fn default() -> (p: Self)
        ensures
            p.shader.key() == 0,
            p.bindings@.len() == 0,
            p.options == (Options { scissors_rect: None, start_index: 0, end_index: 1 }),
    {
        Pipeline {
            shader: Id::default(),
            bindings: Bindings::default(),
            options: Options::default(),
        }
    }
}

} // verus!
