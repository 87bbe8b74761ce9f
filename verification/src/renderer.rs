use vstd::prelude::*;

use crate::assets::Mesh;
use crate::backend::{Command, Context, next_count};
use crate::binding::{
    groups_kinds, groups_match, groups_resources_loaded, groups_resources_ok,
    lemma_fresh_groups_match, resolve_groups,
};
use crate::color::Color;
use crate::error::RenderError;
use crate::handles::{
    Sampler, ShaderModule, StorageBuffer, TextureAlloc, TextureBuffer, TextureUsages,
    UniformBuffer, VertexAlloc, VertexBuffer, WorkGroups,
};
use crate::ids::Id;
use crate::pipeline::{Pipeline, PipelineBackend, PipelineLayout, layout_kind};
use crate::shader::{Shader, all_shaders_loaded, pass_step};

verus! {

/// The frame cycle that follows the given one: it advances by one and
/// wraps from the maximum back to 1, never reaching 0, which is reserved
/// to mean that no frame was ever released.
pub open spec fn spec_next_cycle(cycle: usize) -> usize {
    if cycle == usize::MAX {
        1
    } else {
        (cycle + 1) as usize
    }
}

/// The frame cycle read after the given number of released frames: 1
/// before any release, then advanced once per release.
pub open spec fn cycle_after(releases: nat) -> usize
    decreases releases,
{
    if releases == 0 {
        1
    } else {
        spec_next_cycle(cycle_after((releases - 1) as nat))
    }
}

/// The frame cycle starts at 1, and after n released frames it reads
/// n + 1, as long as n stays below the counter's maximum.
pub proof fn lemma_cycle_counts(releases: nat)
    requires
        releases < usize::MAX,
    ensures
        cycle_after(releases) == releases + 1,
    decreases releases,
{
    if releases > 0 {
        lemma_cycle_counts((releases - 1) as nat);
    }
}

/// The frame cycle never reads zero, however many frames were released.
pub proof fn lemma_cycle_never_zero(releases: nat)
    ensures
        cycle_after(releases) != 0,
    decreases releases,
{
    if releases > 0 {
        lemma_cycle_never_zero((releases - 1) as nat);
    }
}

/// The service in front of the backend: it owns the clear color, the frame
/// cycle counter, the cache-validity flag, and the backend context once
/// `startup` has bound one. Every operation that reaches the backend fails
/// with `RenderError::NotReady`, changing nothing, while no backend is
/// bound.
#[derive(Debug)]
pub struct Renderer {
    clear_color: Color,
    cycle: usize,
    backend: Option<Context>,
    loaded: bool,
}

impl Renderer {
    /// Whether a backend context is bound.
    pub closed spec fn is_ready(&self) -> bool {
        self.backend is Some
    }

    /// The bound backend context; meaningful only when ready.
    pub closed spec fn ctx(&self) -> Context {
        self.backend->0
    }

    /// The current frame cycle.
    pub closed spec fn spec_cycle(&self) -> usize {
        self.cycle
    }

    /// The clear color the next frame will be begun with.
    pub closed spec fn spec_clear_color(&self) -> Color {
        self.clear_color
    }

    /// Whether every known shader compiled since the last reload or drop.
    pub closed spec fn spec_loaded(&self) -> bool {
        self.loaded
    }

    /// Well-formedness: a bound context is well-formed.
    pub open spec fn wf(&self) -> bool {
        self.is_ready() ==> self.ctx().wf()
    }

    /// Whether a compiled pipeline is cached for the key.
    pub open spec fn spec_has(&self, shader: u64) -> bool {
        self.is_ready() && self.ctx().spec_has(shader)
    }

    /// The compiled pipeline cached for the key.
    pub open spec fn pipeline_of(&self, shader: u64) -> PipelineBackend {
        self.ctx().spec_at(shader)
    }

    /// How many compiles the backend has accounted.
    pub open spec fn spec_compiles(&self) -> u64 {
        self.ctx().spec_compiles()
    }

    /// The lifecycle state outside the backend: clear color, cycle and
    /// cache-validity flag are unchanged between the two values.
    pub open spec fn same_front(&self, other: &Renderer) -> bool {
        &&& self.spec_clear_color() == other.spec_clear_color()
        &&& self.spec_cycle() == other.spec_cycle()
        &&& self.spec_loaded() == other.spec_loaded()
    }

    /// Sets the clear color the next frame will be begun with.
    pub fn set_clear_color(&mut self, color: Color)
        ensures
            final(self).spec_clear_color() == color,
            final(self).spec_cycle() == old(self).spec_cycle(),
            final(self).spec_loaded() == old(self).spec_loaded(),
            final(self).is_ready() == old(self).is_ready(),
            final(self).ctx() == old(self).ctx(),
    {
        self.clear_color = color;
    }

    /// Reads the current frame cycle.
    pub fn cycle(&self) -> (r: usize)
        ensures
            r == self.spec_cycle(),
    {
        self.cycle
    }

    /// Reports whether a backend context is bound.
    pub fn ready(&self) -> (r: bool)
        ensures
            r == self.is_ready(),
    {
        self.backend.is_some()
    }

    /// Reports whether every known shader compiled since the last reload
    /// or drop.
    pub fn loaded(&self) -> (r: bool)
        ensures
            r == self.spec_loaded(),
    {
        self.loaded
    }

    /// Reports whether a compiled pipeline is cached for the shader.
    pub fn has_pipeline(&self, shader: Id<Shader>) -> (r: bool)
        ensures
            r == self.spec_has(shader.key()),
    {
        match &self.backend {
            Some(ctx) => ctx.has_pipeline(shader.value()),
            None => false,
        }
    }

    /// Uploads a vertex buffer: attribute data, an optional index buffer
    /// and the vertex count, truncated to the backend's 32-bit range.
    pub fn load_vertex_buffer(
        &self,
        buffer: &mut VertexBuffer,
        attributes: &[u8],
        indices: Option<&[u8]>,
        count: usize,
    ) -> (r: Result<(), RenderError>)
        ensures
            r is Ok <==> self.is_ready(),
            r is Ok ==> final(buffer).spec_loaded() && final(buffer).spec_alloc() == (VertexAlloc {
                attributes_len: attributes@.len() as usize,
                vertices_count: count as u32,
                indexed: indices is Some,
            }),
            r is Err ==> *final(buffer) == *old(buffer) && r == Err::<(), RenderError>(
                RenderError::NotReady,
            ),
    {
        if self.backend.is_none() {
            return Err(RenderError::NotReady);
        }
        buffer.load(attributes, indices, #[verifier::truncate] (count as u32));
        Ok(())
    }

    /// Uploads a texture buffer with the default usages: bindable for
    /// sampling and writable from the host.
    pub fn load_texture_buffer(
        &self,
        buffer: &mut TextureBuffer,
        width: u32,
        height: u32,
        layers: &[&[u8]],
    ) -> (r: Result<(), RenderError>)
        ensures
            r is Ok <==> self.is_ready(),
            r is Ok ==> final(buffer).spec_loaded() && final(buffer).spec_alloc()
                == (TextureAlloc {
                width,
                height,
                layers: layers@.len() as usize,
                usages: TextureUsages {
                    write: true,
                    read: false,
                    texture: true,
                    storage: false,
                    attachment: false,
                },
            }),
            r is Err ==> *final(buffer) == *old(buffer) && r == Err::<(), RenderError>(
                RenderError::NotReady,
            ),
    {
        self.load_texture_buffer_with_usage(
            buffer,
            width,
            height,
            layers,
            TextureUsages::create().texture().write(),
        )
    }

    /// Uploads a texture buffer with the given usages.
    pub fn load_texture_buffer_with_usage(
        &self,
        buffer: &mut TextureBuffer,
        width: u32,
        height: u32,
        layers: &[&[u8]],
        usages: TextureUsages,
    ) -> (r: Result<(), RenderError>)
        ensures
            r is Ok <==> self.is_ready(),
            r is Ok ==> final(buffer).spec_loaded() && final(buffer).spec_alloc()
                == (TextureAlloc { width, height, layers: layers@.len() as usize, usages }),
            r is Err ==> *final(buffer) == *old(buffer) && r == Err::<(), RenderError>(
                RenderError::NotReady,
            ),
    {
        if self.backend.is_none() {
            return Err(RenderError::NotReady);
        }
        buffer.load(width, height, layers, usages);
        Ok(())
    }

    /// Uploads raw data into a uniform buffer.
    pub fn load_uniform_buffer(&self, buffer: &mut UniformBuffer, data: &[u8]) -> (r: Result<
        (),
        RenderError,
    >)
        ensures
            r is Ok <==> self.is_ready(),
            r is Ok ==> final(buffer).spec_loaded() && final(buffer).spec_size() == data@.len(),
            r is Err ==> *final(buffer) == *old(buffer) && r == Err::<(), RenderError>(
                RenderError::NotReady,
            ),
    {
        if self.backend.is_none() {
            return Err(RenderError::NotReady);
        }
        buffer.load(data);
        Ok(())
    }

    /// Creates a sampler on the backend.
    pub fn load_sampler(&self, sampler: &mut Sampler) -> (r: Result<(), RenderError>)
        ensures
            r is Ok <==> self.is_ready(),
            r is Ok ==> final(sampler).spec_loaded(),
            r is Err ==> *final(sampler) == *old(sampler) && r == Err::<(), RenderError>(
                RenderError::NotReady,
            ),
    {
        if self.backend.is_none() {
            return Err(RenderError::NotReady);
        }
        sampler.load();
        Ok(())
    }

    /// Uploads raw data into a storage buffer.
    pub fn load_storage_buffer(&self, buffer: &mut StorageBuffer, data: &[u8]) -> (r: Result<
        (),
        RenderError,
    >)
        ensures
            r is Ok <==> self.is_ready(),
            r is Ok ==> final(buffer).spec_loaded() && final(buffer).spec_size() == data@.len(),
            r is Err ==> *final(buffer) == *old(buffer) && r == Err::<(), RenderError>(
                RenderError::NotReady,
            ),
    {
        if self.backend.is_none() {
            return Err(RenderError::NotReady);
        }
        buffer.load(data);
        Ok(())
    }

    /// Uploads and compiles a shader module; the module ends loaded
    /// exactly when the source is non-empty.
    pub fn load_shader_module(
        &self,
        shader_module: &mut ShaderModule,
        name: &str,
        code: &str,
    ) -> (r: Result<(), RenderError>)
        ensures
            r is Ok <==> self.is_ready(),
            r is Ok ==> final(shader_module).spec_loaded() == (code@.len() > 0),
            r is Err ==> *final(shader_module) == *old(shader_module) && r == Err::<
                (),
                RenderError,
            >(RenderError::NotReady),
    {
        if self.backend.is_none() {
            return Err(RenderError::NotReady);
        }
        shader_module.load(name, code);
        Ok(())
    }

    /// Forces every shader to be recompiled: clears the cache-validity
    /// flag and drops every cached pipeline, so the next frame's lazy-load
    /// pass starts from scratch.
    pub fn reload(&mut self) -> (r: Result<(), RenderError>)
        requires
            old(self).wf(),
        ensures
            final(self).wf(),
            r is Ok <==> old(self).is_ready(),
            r is Err ==> *final(self) == *old(self) && r == Err::<(), RenderError>(
                RenderError::NotReady,
            ),
            r is Ok ==> !final(self).spec_loaded(),
            r is Ok ==> final(self).is_ready() && final(self).ctx().spec_cache().len() == 0,
            r is Ok ==> forall|k: u64| !final(self).spec_has(k),
            r is Ok ==> final(self).ctx().same_frame_state(&old(self).ctx()),
            r is Ok ==> final(self).spec_compiles() == old(self).spec_compiles(),
            r is Ok ==> final(self).spec_cycle() == old(self).spec_cycle() && final(self).spec_clear_color() == old(self).spec_clear_color(),
    {
        self.drop_all_pipelines()
    }

    /// Drops the cached pipeline of one shader and clears the
    /// cache-validity flag, forcing revalidation on the next frame.
    pub fn drop_pipeline(&mut self, shader: Id<Shader>) -> (r: Result<(), RenderError>)
        requires
            old(self).wf(),
        ensures
            final(self).wf(),
            r is Ok <==> old(self).is_ready(),
            r is Err ==> *final(self) == *old(self) && r == Err::<(), RenderError>(
                RenderError::NotReady,
            ),
            r is Ok ==> !final(self).spec_loaded() && final(self).is_ready(),
            r is Ok ==> !final(self).spec_has(shader.key()),
            r is Ok ==> forall|k: u64|
                k != shader.key() ==> #[trigger] final(self).spec_has(k) == old(self).spec_has(k),
            r is Ok ==> forall|k: u64|
                k != shader.key() && old(self).spec_has(k) ==> #[trigger] final(self).pipeline_of(
                    k,
                ) == old(self).pipeline_of(k),
            r is Ok ==> final(self).ctx().same_frame_state(&old(self).ctx()),
            r is Ok ==> final(self).spec_compiles() == old(self).spec_compiles(),
            r is Ok ==> final(self).spec_cycle() == old(self).spec_cycle() && final(self).spec_clear_color() == old(self).spec_clear_color(),
    {
        let key = shader.value();
        match &mut self.backend {
            Some(ctx) => {
                ctx.drop_pipeline(key);
            },
            None => {
                return Err(RenderError::NotReady);
            },
        }
        self.loaded = false;
        Ok(())
    }

    /// Drops every cached pipeline and clears the cache-validity flag.
    pub fn drop_all_pipelines(&mut self) -> (r: Result<(), RenderError>)
        requires
            old(self).wf(),
        ensures
            final(self).wf(),
            r is Ok <==> old(self).is_ready(),
            r is Err ==> *final(self) == *old(self) && r == Err::<(), RenderError>(
                RenderError::NotReady,
            ),
            r is Ok ==> !final(self).spec_loaded(),
            r is Ok ==> final(self).is_ready() && final(self).ctx().spec_cache().len() == 0,
            r is Ok ==> forall|k: u64| !final(self).spec_has(k),
            r is Ok ==> final(self).ctx().same_frame_state(&old(self).ctx()),
            r is Ok ==> final(self).spec_compiles() == old(self).spec_compiles(),
            r is Ok ==> final(self).spec_cycle() == old(self).spec_cycle() && final(self).spec_clear_color() == old(self).spec_clear_color(),
    {
        match &mut self.backend {
            Some(ctx) => {
                ctx.drop_all_pipelines();
            },
            None => {
                return Err(RenderError::NotReady);
            },
        }
        self.loaded = false;
        Ok(())
    }

    /// The outcome a bind request has against this service: it fails while
    /// the backend is unbound; against a cached pipeline it succeeds
    /// exactly when the groups fit the cached layout; against an uncached
    /// shader it needs the shader's module compiled and every referenced
    /// resource loaded, and a compile failure is never cached.
    pub open spec fn spec_bind_outcome(&self, pipeline: Pipeline, layout: PipelineLayout) -> Result<
        (),
        RenderError,
    > {
        let key = pipeline.shader.key();
        if !self.is_ready() {
            Err(RenderError::NotReady)
        } else if self.spec_has(key) {
            if groups_match(self.pipeline_of(key).spec_slots(), layout.bindings@) {
                Ok(())
            } else {
                Err(RenderError::BindingMismatch)
            }
        } else if !layout.shader.spec_loaded() {
            Err(RenderError::ShaderNotCompiled)
        } else if !groups_resources_loaded(layout.bindings@) {
            Err(RenderError::BindingMismatch)
        } else {
            Ok(())
        }
    }

    /// Ensures a compiled pipeline exists for the pipeline's shader,
    /// compiling one from the layout if the cache has none, then resolves
    /// the layout's bind groups against it and stores the result into the
    /// pipeline value. On failure neither the cache nor the pipeline value
    /// changes.
    pub fn bind(&mut self, pipeline: &mut Pipeline, layout: PipelineLayout) -> (r: Result<
        (),
        RenderError,
    >)
        requires
            old(self).wf(),
        ensures
            final(self).wf(),
            r == old(self).spec_bind_outcome(*old(pipeline), layout),
            r is Err ==> *final(self) == *old(self) && *final(pipeline) == *old(pipeline),
            r is Ok ==> final(pipeline).shader == old(pipeline).shader && final(pipeline).options
                == old(pipeline).options,
            r is Ok ==> final(pipeline).bindings@ == resolve_groups(layout.bindings@),
            r is Ok ==> final(self).spec_has(old(pipeline).shader.key()) && final(pipeline).bindings.spec_instance() == final(self).pipeline_of(
                old(pipeline).shader.key(),
            ).spec_instance(),
            r is Ok && old(self).spec_has(old(pipeline).shader.key()) ==> *final(self) == *old(self),
            r is Ok && !old(self).spec_has(old(pipeline).shader.key()) ==> {
                let key = old(pipeline).shader.key();
                &&& final(self).pipeline_of(key).spec_slots() == groups_kinds(
                    layout.bindings@,
                )
                &&& final(self).pipeline_of(key).spec_kind() == layout_kind(layout)
                &&& final(self).pipeline_of(key).spec_instance() == next_count(
                    old(self).spec_compiles(),
                )
                &&& final(self).spec_compiles() == next_count(old(self).spec_compiles())
                &&& forall|k: u64|
                    k != key ==> #[trigger] final(self).spec_has(k) == old(self).spec_has(k)
                &&& forall|k: u64|
                    k != key && old(self).spec_has(k) ==> #[trigger] final(self).pipeline_of(k)
                        == old(self).pipeline_of(k)
                &&& final(self).ctx().same_frame_state(&old(self).ctx())
            },
            r is Ok ==> final(self).same_front(old(self)) && final(self).is_ready(),
    {
        let key = pipeline.shader.value();
        match &mut self.backend {
            Some(ctx) => {
                if !ctx.has_pipeline(key) {
                    if !layout.shader.loaded() {
                        return Err(RenderError::ShaderNotCompiled);
                    }
                    if !groups_resources_ok(&layout.bindings) {
                        return Err(RenderError::BindingMismatch);
                    }
                    let instance = ctx.next_instance();
                    let pb = PipelineBackend::new(&layout, instance);
                    ctx.add_pipeline(key, pb);
                    proof {
                        lemma_fresh_groups_match(layout.bindings@);
                    }
                }
                match ctx.pipeline(key) {
                    Some(pb) => {
                        match pipeline.bindings.load(pb, &layout.bindings) {
                            Ok(()) => Ok(()),
                            Err(e) => Err(e),
                        }
                    },
                    None => Err(RenderError::ShaderNotCompiled),
                }
            },
            None => Err(RenderError::NotReady),
        }
    }

    /// The outcome a draw request has against this service.
    pub open spec fn spec_run_outcome(&self, pipeline: Pipeline, mesh: Mesh) -> Result<
        (),
        RenderError,
    > {
        if !self.is_ready() {
            Err(RenderError::NotReady)
        } else {
            self.ctx().spec_render_outcome(
                pipeline.shader.key(),
                mesh.vertex_buffer,
                pipeline.bindings,
            )
        }
    }

    /// Records a draw for the current frame using the pipeline's compiled
    /// pipeline, the mesh's vertex buffer, the pipeline's bindings and its
    /// draw options. On failure no command is recorded.
    pub fn run(&mut self, pipeline: &mut Pipeline, mesh: &Mesh) -> (r: Result<(), RenderError>)
        requires
            old(self).wf(),
        ensures
            final(self).wf(),
            *final(pipeline) == *old(pipeline),
            r == old(self).spec_run_outcome(*old(pipeline), *mesh),
            r is Err ==> *final(self) == *old(self),
            r is Ok ==> final(self).ctx().spec_commands() == old(self).ctx().spec_commands().push(
                Command::Draw {
                    shader: old(pipeline).shader.key(),
                    instance: old(pipeline).bindings.spec_instance(),
                    vertices_count: mesh.vertex_buffer.spec_alloc().vertices_count,
                    start_index: old(pipeline).options.start_index,
                    end_index: old(pipeline).options.end_index,
                },
            ),
            r is Ok ==> final(self).ctx().same_cache(&old(self).ctx()) && final(self).same_front(
                old(self),
            ) && final(self).is_ready(),
    {
        match &mut self.backend {
            Some(ctx) => ctx.run_render_pipeline(
                pipeline.shader.value(),
                &mesh.vertex_buffer,
                &pipeline.bindings,
                &pipeline.options,
            ),
            None => Err(RenderError::NotReady),
        }
    }

    /// The outcome a dispatch request has against this service.
    pub open spec fn spec_compute_outcome(&self, pipeline: Pipeline) -> Result<(), RenderError> {
        if !self.is_ready() {
            Err(RenderError::NotReady)
        } else {
            self.ctx().spec_compute_outcome(pipeline.shader.key(), pipeline.bindings)
        }
    }

    /// Records a compute dispatch for the current frame using the
    /// pipeline's compiled pipeline and bindings. On failure no command is
    /// recorded.
    pub fn compute(&mut self, pipeline: &mut Pipeline, work_groups: WorkGroups) -> (r: Result<
        (),
        RenderError,
    >)
        requires
            old(self).wf(),
        ensures
            final(self).wf(),
            *final(pipeline) == *old(pipeline),
            r == old(self).spec_compute_outcome(*old(pipeline)),
            r is Err ==> *final(self) == *old(self),
            r is Ok ==> final(self).ctx().spec_commands() == old(self).ctx().spec_commands().push(
                Command::Dispatch {
                    shader: old(pipeline).shader.key(),
                    instance: old(pipeline).bindings.spec_instance(),
                    x: work_groups.x,
                    y: work_groups.y,
                    z: work_groups.z,
                },
            ),
            r is Ok ==> final(self).ctx().same_cache(&old(self).ctx()) && final(self).same_front(
                old(self),
            ) && final(self).is_ready(),
    {
        match &mut self.backend {
            Some(ctx) => ctx.run_compute_pipeline(
                pipeline.shader.value(),
                &pipeline.bindings,
                &work_groups,
            ),
            None => Err(RenderError::NotReady),
        }
    }
}

impl Default for Renderer {
    /// A service in the unbound state: default clear color, frame cycle 1,
    /// no backend, cache not validated.
    fn default() -> (r: Self)
        ensures
            r.wf(),
            !r.is_ready(),
            r.spec_cycle() == 1,
            !r.spec_loaded(),
            r.spec_clear_color() == (Color { r: 26, g: 51, b: 77, a: 255 }),
    {
        Renderer { clear_color: Color::default(), cycle: 1, backend: None, loaded: false }
    }
}

/// The startup lifecycle step, run exactly once before any frame: binds a
/// backend context for a surface of the given size if none is bound yet,
/// and creates the default sampler for the callers' shared state.
pub fn startup(renderer: &mut Renderer, width: u32, height: u32) -> (sampler: Sampler)
    requires
        old(renderer).wf(),
    ensures
        final(renderer).wf(),
        final(renderer).is_ready(),
        sampler.spec_loaded(),
        old(renderer).is_ready() ==> final(renderer).ctx() == old(renderer).ctx(),
        !old(renderer).is_ready() ==> {
            &&& final(renderer).ctx().spec_cache().len() == 0
            &&& final(renderer).spec_compiles() == 0
            &&& !final(renderer).ctx().spec_frame_active()
            &&& final(renderer).ctx().spec_width() == width
            &&& final(renderer).ctx().spec_height() == height
        },
        final(renderer).same_front(old(renderer)),
{
    if renderer.backend.is_none() {
        renderer.backend = Some(Context::new(width, height));
    }
    let mut sampler = Sampler::default();
    match renderer.load_sampler(&mut sampler) {
        Ok(()) => {},
        Err(_) => {},
    }
    sampler
}

/// The frame binding lifecycle step, run once at the start of every frame:
/// begins a new frame targeting the current clear color, and, unless every
/// shader already compiled, runs the lazy-load pass over the given shader
/// assets, attempting each one that is not loaded yet and recording
/// whether all of them ended loaded.
pub fn bind(renderer: &mut Renderer, shaders: &mut Vec<Shader>) -> (r: Result<(), RenderError>)
    requires
        old(renderer).wf(),
    ensures
        final(renderer).wf(),
        r is Ok <==> old(renderer).is_ready(),
        r is Err ==> *final(renderer) == *old(renderer) && *final(shaders) == *old(shaders) && r
            == Err::<(), RenderError>(RenderError::NotReady),
        r is Ok ==> final(renderer).is_ready() && final(renderer).ctx().spec_frame_active(),
        r is Ok ==> final(renderer).ctx().spec_clear() == old(renderer).spec_clear_color(),
        r is Ok ==> final(renderer).ctx().spec_commands().len() == 0,
        r is Ok ==> final(renderer).ctx().same_cache(&old(renderer).ctx()),
        r is Ok ==> final(renderer).spec_cycle() == old(renderer).spec_cycle() && final(renderer).spec_clear_color() == old(renderer).spec_clear_color(),
        r is Ok && old(renderer).spec_loaded() ==> final(shaders)@ == old(shaders)@ && final(renderer).spec_loaded(),
        r is Ok && !old(renderer).spec_loaded() ==> {
            &&& final(shaders)@.len() == old(shaders)@.len()
            &&& forall|i: int|
                0 <= i < old(shaders)@.len() ==> pass_step(
                    old(shaders)@[i],
                    #[trigger] final(shaders)@[i],
                )
            &&& final(renderer).spec_loaded() == all_shaders_loaded(final(shaders)@)
        },
{
    match &mut renderer.backend {
        Some(ctx) => {
            let clear = renderer.clear_color;
            ctx.bind_frame(&clear);
        },
        None => {
            return Err(RenderError::NotReady);
        },
    }
    if renderer.loaded {
        return Ok(());
    }
    let ghost mid_renderer = *renderer;
    let ghost start_shaders = shaders@;
    let mut all: bool = true;
    let mut i: usize = 0;
    while i < shaders.len()
        invariant
            i <= start_shaders.len(),
            shaders@.len() == start_shaders.len(),
            *renderer == mid_renderer,
            renderer.is_ready(),
            renderer.wf(),
            forall|i2: int|
                0 <= i2 < i ==> pass_step(start_shaders[i2], #[trigger] shaders@[i2]),
            forall|i2: int| i <= i2 < start_shaders.len() ==> shaders@[i2] == start_shaders[i2],
            all == (forall|i2: int| 0 <= i2 < i ==> (#[trigger] shaders@[i2]).spec_loaded()),
        decreases start_shaders.len() - i,
    {
        let ghost before = shaders@;
        let ghost prev_all = all;
        let shader = &mut shaders[i];
        match shader.load(&*renderer) {
            Ok(()) => {},
            Err(_) => {
                return Err(RenderError::NotReady);
            },
        }
        let now_loaded = shader.loaded();
        if !now_loaded {
            all = false;
        }
        proof {
            assert(shaders@ == before.update(i as int, shaders@[i as int]));
            assert forall|i2: int| 0 <= i2 < i + 1 implies pass_step(
                start_shaders[i2],
                #[trigger] shaders@[i2],
            ) by {
                if i2 < i {
                    assert(shaders@[i2] == before[i2]);
                }
            }
            assert(shaders@[i as int].spec_loaded() == now_loaded);
            if all {
                assert forall|i2: int| 0 <= i2 < i + 1 implies (
                #[trigger] shaders@[i2]).spec_loaded() by {
                    if i2 < i {
                        assert(shaders@[i2] == before[i2]);
                        assert(before[i2].spec_loaded());
                    }
                }
            } else {
                if prev_all {
                    assert(!shaders@[i as int].spec_loaded());
                } else {
                    assert(exists|i2: int|
                        0 <= i2 < i && !(#[trigger] before[i2]).spec_loaded());
                    let w = choose|i2: int| 0 <= i2 < i && !(#[trigger] before[i2]).spec_loaded();
                    assert(shaders@[w] == before[w]);
                    assert(!shaders@[w].spec_loaded());
                }
            }
        }
        i = i + 1;
    }
    renderer.loaded = all;
    Ok(())
}

/// The frame release lifecycle step, run once at the end of every frame:
/// submits and presents the frame, then advances the frame cycle, wrapping
/// from the maximum back to 1 and never reaching 0.
pub fn release(renderer: &mut Renderer) -> (r: Result<(), RenderError>)
    requires
        old(renderer).wf(),
    ensures
        final(renderer).wf(),
        r is Ok <==> old(renderer).is_ready(),
        r is Err ==> *final(renderer) == *old(renderer) && r == Err::<(), RenderError>(
            RenderError::NotReady,
        ),
        r is Ok ==> final(renderer).spec_cycle() == spec_next_cycle(old(renderer).spec_cycle()),
        r is Ok ==> final(renderer).spec_cycle() != 0,
        r is Ok ==> final(renderer).is_ready() && !final(renderer).ctx().spec_frame_active(),
        r is Ok ==> final(renderer).ctx().same_cache(&old(renderer).ctx()),
        r is Ok ==> final(renderer).spec_loaded() == old(renderer).spec_loaded() && final(renderer).spec_clear_color() == old(renderer).spec_clear_color(),
{
    match &mut renderer.backend {
        Some(ctx) => {
            ctx.release_frame();
        },
        None => {
            return Err(RenderError::NotReady);
        },
    }
    renderer.cycle = if renderer.cycle == usize::MAX {
        1
    } else {
        renderer.cycle + 1
    };
    Ok(())
}

/// The resize lifecycle step, run on viewport size changes: forwards the
/// new size to the backend so subsequent frames render at it; the
/// pipeline cache is untouched.
pub fn resize(renderer: &mut Renderer, width: u32, height: u32) -> (r: Result<(), RenderError>)
    requires
        old(renderer).wf(),
    ensures
        final(renderer).wf(),
        r is Ok <==> old(renderer).is_ready(),
        r is Err ==> *final(renderer) == *old(renderer) && r == Err::<(), RenderError>(
            RenderError::NotReady,
        ),
        r is Ok ==> final(renderer).ctx().spec_width() == width && final(renderer).ctx().spec_height() == height,
        r is Ok ==> final(renderer).ctx().same_cache(&old(renderer).ctx()),
        r is Ok ==> final(renderer).ctx().spec_frame_active() == old(renderer).ctx().spec_frame_active() && final(renderer).ctx().spec_commands() == old(renderer).ctx().spec_commands(),
        r is Ok ==> final(renderer).same_front(old(renderer)) && final(renderer).is_ready(),
{
    match &mut renderer.backend {
        Some(ctx) => {
            ctx.resize(width, height);
            Ok(())
        },
        None => Err(RenderError::NotReady),
    }
}

} // verus!
