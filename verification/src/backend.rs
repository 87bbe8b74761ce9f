use vstd::prelude::*;

use crate::binding::Bindings;
use crate::color::Color;
use crate::error::RenderError;
use crate::handles::{VertexBuffer, WorkGroups};
use crate::pipeline::{Options, PipelineBackend, PipelineKind};

verus! {

/// The next value of the saturating compile counter: pipeline instance
/// numbers grow with every compile and never wrap.
pub open spec fn next_count(c: u64) -> u64 {
    if c < u64::MAX {
        (c + 1) as u64
    } else {
        u64::MAX
    }
}

/// One command recorded against the current frame.
#[derive(Clone, Copy, Debug, PartialEq, Eq, Structural)]
pub enum Command {
    /// A draw through a render pipeline.
    Draw {
        /// Key of the shader drawn with.
        shader: u64,
        /// Instance of the compiled pipeline used.
        instance: u64,
        /// Vertices of the mesh drawn.
        vertices_count: u32,
        /// First index of the draw range.
        start_index: u32,
        /// One past the last index of the draw range.
        end_index: u32,
    },
    /// A dispatch through a compute pipeline.
    Dispatch {
        /// Key of the shader dispatched with.
        shader: u64,
        /// Instance of the compiled pipeline used.
        instance: u64,
        /// Work groups along the x axis.
        x: u32,
        /// Work groups along the y axis.
        y: u32,
        /// Work groups along the z axis.
        z: u32,
    },
}

/// Whether no two cache entries share a key.
pub open spec fn distinct_keys(cache: Seq<(u64, PipelineBackend)>) -> bool {
    forall|a: int, b: int|
        0 <= a < b < cache.len() ==> (#[trigger] cache[a]).0 != (#[trigger] cache[b]).0
}

/// Whether the cache holds an entry for the key.
pub open spec fn cache_has(cache: Seq<(u64, PipelineBackend)>, k: u64) -> bool {
    exists|i: int| 0 <= i < cache.len() && (#[trigger] cache[i]).0 == k
}

/// The entry the cache holds for the key; meaningful only when present.
pub open spec fn cache_at(cache: Seq<(u64, PipelineBackend)>, k: u64) -> PipelineBackend {
    cache[choose|i: int| 0 <= i < cache.len() && (#[trigger] cache[i]).0 == k].1
}

/// With distinct keys, an entry found at any index is the entry the cache
/// holds for its key.
proof fn lemma_at_index(cache: Seq<(u64, PipelineBackend)>, i: int, k: u64)
    requires
        distinct_keys(cache),
        0 <= i < cache.len(),
        cache[i].0 == k,
    ensures
        cache_has(cache, k),
        cache_at(cache, k) == cache[i].1,
{
    let j = choose|j: int| 0 <= j < cache.len() && (#[trigger] cache[j]).0 == k;
    if j < i {
        assert(cache[j].0 != cache[i].0);
    } else if i < j {
        assert(cache[i].0 != cache[j].0);
    }
}

/// The modelled backend context: it owns the compiled pipeline cache, the
/// surface size, and the state of the frame in flight together with the
/// commands recorded for it. One compiled pipeline exists per shader key
/// at a time, and every compiled pipeline carries a distinct, growing
/// instance number, so stale bindings can be told from fresh ones.
#[derive(Debug)]
pub struct Context {
    width: u32,
    height: u32,
    pipelines: Vec<(u64, PipelineBackend)>,
    compiles: u64,
    frame_active: bool,
    frame_clear: Color,
    commands: Vec<Command>,
}

impl Context {
    /// The cache entries, in insertion order.
    pub closed spec fn spec_cache(&self) -> Seq<(u64, PipelineBackend)> {
        self.pipelines@
    }

    /// How many compiles the context has accounted.
    pub closed spec fn spec_compiles(&self) -> u64 {
        self.compiles
    }

    /// Whether a frame is in flight.
    pub closed spec fn spec_frame_active(&self) -> bool {
        self.frame_active
    }

    /// The clear color the current frame was begun with.
    pub closed spec fn spec_clear(&self) -> Color {
        self.frame_clear
    }

    /// The commands recorded for the current frame, in order.
    pub closed spec fn spec_commands(&self) -> Seq<Command> {
        self.commands@
    }

    /// Surface width in pixels.
    pub closed spec fn spec_width(&self) -> u32 {
        self.width
    }

    /// Surface height in pixels.
    pub closed spec fn spec_height(&self) -> u32 {
        self.height
    }

    /// Whether a compiled pipeline is cached for the key.
    pub open spec fn spec_has(&self, shader: u64) -> bool {
        cache_has(self.spec_cache(), shader)
    }

    /// The compiled pipeline cached for the key.
    pub open spec fn spec_at(&self, shader: u64) -> PipelineBackend {
        cache_at(self.spec_cache(), shader)
    }

    /// Well-formedness: no two cache entries share a key.
    pub open spec fn wf(&self) -> bool {
        distinct_keys(self.spec_cache())
    }

    /// Everything but the cache and the compile counter is unchanged.
    pub open spec fn same_frame_state(&self, other: &Context) -> bool {
        &&& self.spec_frame_active() == other.spec_frame_active()
        &&& self.spec_clear() == other.spec_clear()
        &&& self.spec_commands() == other.spec_commands()
        &&& self.spec_width() == other.spec_width()
        &&& self.spec_height() == other.spec_height()
    }

    /// The cache and the compile counter are unchanged.
    pub open spec fn same_cache(&self, other: &Context) -> bool {
        &&& self.spec_cache() == other.spec_cache()
        &&& self.spec_compiles() == other.spec_compiles()
    }

    /// A fresh context for a surface of the given size: empty cache, no
    /// frame in flight, nothing recorded.
    pub fn new(width: u32, height: u32) -> (c: Self)
        ensures
            c.wf(),
            c.spec_cache().len() == 0,
            c.spec_compiles() == 0,
            !c.spec_frame_active(),
            c.spec_commands().len() == 0,
            c.spec_width() == width,
            c.spec_height() == height,
            c.spec_clear() == (Color { r: 0, g: 0, b: 0, a: 255 }),
    {
        Context {
            width,
            height,
            pipelines: Vec::new(),
            compiles: 0,
            frame_active: false,
            frame_clear: Color { r: 0, g: 0, b: 0, a: 255 },
            commands: Vec::new(),
        }
    }

    /// Forwards a new surface size; the cache is untouched.
    pub fn resize(&mut self, width: u32, height: u32)
        ensures
            final(self).spec_width() == width,
            final(self).spec_height() == height,
            final(self).same_cache(old(self)),
            final(self).spec_frame_active() == old(self).spec_frame_active(),
            final(self).spec_clear() == old(self).spec_clear(),
            final(self).spec_commands() == old(self).spec_commands(),
    {
        self.width = width;
        self.height = height;
    }

    /// Begins a new frame targeting the given clear color; the command log
    /// starts empty.
    pub fn bind_frame(&mut self, clear_color: &Color)
        ensures
            final(self).spec_frame_active(),
            final(self).spec_clear() == *clear_color,
            final(self).spec_commands().len() == 0,
            final(self).same_cache(old(self)),
            final(self).spec_width() == old(self).spec_width(),
            final(self).spec_height() == old(self).spec_height(),
    {
        self.frame_active = true;
        self.frame_clear = *clear_color;
        self.commands = Vec::new();
    }

    /// Submits and presents the frame in flight.
    pub fn release_frame(&mut self)
        ensures
            !final(self).spec_frame_active(),
            final(self).same_cache(old(self)),
            final(self).spec_clear() == old(self).spec_clear(),
            final(self).spec_commands() == old(self).spec_commands(),
            final(self).spec_width() == old(self).spec_width(),
            final(self).spec_height() == old(self).spec_height(),
    {
        self.frame_active = false;
    }

    /// The index of the cache entry for the key, if any.
    fn index_of(&self, shader: u64) -> (r: Option<usize>)
        ensures
            match r {
                Some(i) => i < self.spec_cache().len() && self.spec_cache()[i as int].0 == shader,
                None => !self.spec_has(shader),
            },
    {
        let mut i: usize = 0;
        while i < self.pipelines.len()
            invariant
                i <= self.spec_cache().len(),
                forall|i2: int| 0 <= i2 < i ==> (#[trigger] self.spec_cache()[i2]).0 != shader,
            decreases self.spec_cache().len() - i,
        {
            if self.pipelines[i].0 == shader {
                return Some(i);
            }
            i = i + 1;
        }
        None
    }

    /// Reports whether a compiled pipeline is cached for the key.
    pub fn has_pipeline(&self, shader: u64) -> (r: bool)
        ensures
            r == self.spec_has(shader),
    {
        match self.index_of(shader) {
            Some(i) => {
                proof {
                    assert(0 <= i < self.spec_cache().len() && self.spec_cache()[i as int].0
                        == shader);
                }
                true
            },
            None => false,
        }
    }

    /// The compiled pipeline cached for the key, if any.
    pub fn pipeline(&self, shader: u64) -> (r: Option<&PipelineBackend>)
        requires
            self.wf(),
        ensures
            match r {
                Some(pb) => self.spec_has(shader) && *pb == self.spec_at(shader),
                None => !self.spec_has(shader),
            },
    {
        match self.index_of(shader) {
            Some(i) => {
                proof {
                    lemma_at_index(self.spec_cache(), i as int, shader);
                }
                Some(&self.pipelines[i].1)
            },
            None => None,
        }
    }

    /// The instance number the next compiled pipeline will be accounted
    /// under.
    pub fn next_instance(&self) -> (r: u64)
        ensures
            r == next_count(self.spec_compiles()),
    {
        if self.compiles < u64::MAX {
            self.compiles + 1
        } else {
            u64::MAX
        }
    }

    /// Stores a compiled pipeline for the key, releasing any prior entry
    /// for it, and accounts the compile.
    pub fn add_pipeline(&mut self, shader: u64, pipeline: PipelineBackend)
        requires
            old(self).wf(),
        ensures
            final(self).wf(),
            final(self).spec_has(shader),
            final(self).spec_at(shader) == pipeline,
            forall|k: u64|
                k != shader ==> #[trigger] final(self).spec_has(k) == old(self).spec_has(k),
            forall|k: u64|
                k != shader && old(self).spec_has(k) ==> #[trigger] final(self).spec_at(k) == old(
                    self,
                ).spec_at(k),
            final(self).spec_compiles() == next_count(old(self).spec_compiles()),
            final(self).same_frame_state(old(self)),
    {
        self.remove_entry(shader);
        let ghost mid_ctx = *self;
        let ghost mid = self.pipelines@;
        self.pipelines.push((shader, pipeline));
        if self.compiles < u64::MAX {
            self.compiles = self.compiles + 1;
        }
        proof {
            let cache = self.spec_cache();
            assert(cache == mid.push((shader, pipeline)));
            assert(!mid_ctx.spec_has(shader));
            assert forall|a: int, b: int| 0 <= a < b < cache.len() implies (#[trigger] cache[a]).0
                != (#[trigger] cache[b]).0 by {
                if b == cache.len() - 1 {
                    if mid[a].0 == shader {
                        assert(0 <= a < mid.len() && mid[a].0 == shader);
                        assert(cache_has(mid, shader));
                    }
                }
            }
            lemma_at_index(cache, cache.len() - 1, shader);
            assert forall|k: u64| k != shader implies #[trigger] self.spec_has(k) == old(
                self,
            ).spec_has(k) by {
                if cache_has(cache, k) {
                    let i = choose|i: int| 0 <= i < cache.len() && (#[trigger] cache[i]).0 == k;
                    assert(i < mid.len() && mid[i].0 == k);
                    assert(cache_has(mid, k));
                }
                if cache_has(mid, k) {
                    let i = choose|i: int| 0 <= i < mid.len() && (#[trigger] mid[i]).0 == k;
                    assert(cache[i].0 == k);
                    assert(cache_has(cache, k));
                }
                assert(mid_ctx.spec_has(k) == old(self).spec_has(k));
            }
            assert forall|k: u64| k != shader && old(self).spec_has(k) implies #[trigger] self
                .spec_at(k) == old(self).spec_at(k) by {
                assert(mid_ctx.spec_has(k) == old(self).spec_has(k));
                let i = choose|i: int| 0 <= i < mid.len() && (#[trigger] mid[i]).0 == k;
                assert(cache[i].0 == k);
                lemma_at_index(cache, i, k);
                lemma_at_index(mid, i, k);
                assert(mid_ctx.spec_at(k) == old(self).spec_at(k));
            }
        }
    }

    /// Removes the cache entry for the key, if any; afterwards no entry
    /// has the key and every other entry is kept.
    fn remove_entry(&mut self, shader: u64)
        requires
            old(self).wf(),
        ensures
            final(self).wf(),
            !final(self).spec_has(shader),
            forall|k: u64|
                k != shader ==> #[trigger] final(self).spec_has(k) == old(self).spec_has(k),
            forall|k: u64|
                k != shader && old(self).spec_has(k) ==> #[trigger] final(self).spec_at(k) == old(
                    self,
                ).spec_at(k),
            final(self).spec_compiles() == old(self).spec_compiles(),
            final(self).same_frame_state(old(self)),
    {
        let found = self.index_of(shader);
        match found {
            Some(i) => {
                let ghost before = self.pipelines@;
                self.pipelines.remove(i);
                proof {
                    let cache = self.spec_cache();
                    assert(cache == before.remove(i as int));
                    before.remove_ensures(i as int);
                    assert forall|a: int, b: int| 0 <= a < b < cache.len() implies (
                    #[trigger] cache[a]).0 != (#[trigger] cache[b]).0 by {
                        if b < i {
                            assert(before[a].0 != before[b].0);
                        } else if a < i {
                            assert(before[a].0 != before[b + 1].0);
                        } else {
                            assert(before[a + 1].0 != before[b + 1].0);
                        }
                    }
                    assert forall|k: u64| cache_has(cache, k) implies k != shader && cache_has(
                        before,
                        k,
                    ) by {
                        let j = choose|j: int| 0 <= j < cache.len() && (#[trigger] cache[j]).0
                            == k;
                        if j < i {
                            assert(before[j].0 == k);
                            if k == shader {
                                assert(before[j].0 != before[i as int].0);
                            }
                        } else {
                            assert(before[j + 1].0 == k);
                            if k == shader {
                                assert(before[i as int].0 != before[j + 1].0);
                            }
                        }
                    }
                    assert forall|k: u64| k != shader && cache_has(before, k) implies cache_has(
                        cache,
                        k,
                    ) && cache_at(cache, k) == cache_at(before, k) by {
                        let j = choose|j: int| 0 <= j < before.len() && (#[trigger] before[j]).0
                            == k;
                        lemma_at_index(before, j, k);
                        if j < i {
                            assert(cache[j].0 == k);
                            lemma_at_index(cache, j, k);
                        } else {
                            assert(j > i);
                            assert(cache[j - 1] == before[j]);
                            lemma_at_index(cache, j - 1, k);
                        }
                    }
                }
            },
            None => {},
        }
    }

    /// Drops the compiled pipeline for the key, if any.
    pub fn drop_pipeline(&mut self, shader: u64)
        requires
            old(self).wf(),
        ensures
            final(self).wf(),
            !final(self).spec_has(shader),
            forall|k: u64|
                k != shader ==> #[trigger] final(self).spec_has(k) == old(self).spec_has(k),
            forall|k: u64|
                k != shader && old(self).spec_has(k) ==> #[trigger] final(self).spec_at(k) == old(
                    self,
                ).spec_at(k),
            final(self).spec_compiles() == old(self).spec_compiles(),
            final(self).same_frame_state(old(self)),
    {
        self.remove_entry(shader);
    }

    /// Drops every compiled pipeline.
    pub fn drop_all_pipelines(&mut self)
        ensures
            final(self).wf(),
            final(self).spec_cache().len() == 0,
            forall|k: u64| !final(self).spec_has(k),
            final(self).spec_compiles() == old(self).spec_compiles(),
            final(self).same_frame_state(old(self)),
    {
        self.pipelines = Vec::new();
    }

    /// The outcome a draw request has against this context.
    pub open spec fn spec_render_outcome(
        &self,
        shader: u64,
        vertices: VertexBuffer,
        bindings: Bindings,
    ) -> Result<(), RenderError> {
        if !self.spec_has(shader) {
            Err(RenderError::ShaderNotCompiled)
        } else if self.spec_at(shader).spec_kind() != PipelineKind::Render {
            Err(RenderError::PipelineKindMismatch)
        } else if !vertices.spec_loaded() {
            Err(RenderError::BindingMismatch)
        } else if bindings.spec_instance() != self.spec_at(shader).spec_instance() {
            Err(RenderError::BindingMismatch)
        } else {
            Ok(())
        }
    }

    /// Records a draw through the compiled pipeline of the key: the shader
    /// must have a cached render pipeline, the vertex buffer must be
    /// loaded, and the bindings must have been resolved against the cached
    /// pipeline instance. On failure nothing is recorded.
    pub fn run_render_pipeline(
        &mut self,
        shader: u64,
        vertices: &VertexBuffer,
        bindings: &Bindings,
        options: &Options,
    ) -> (r: Result<(), RenderError>)
        requires
            old(self).wf(),
        ensures
            final(self).wf(),
            r == old(self).spec_render_outcome(shader, *vertices, *bindings),
            r is Err ==> *final(self) == *old(self),
            r is Ok ==> final(self).spec_commands() == old(self).spec_commands().push(
                Command::Draw {
                    shader,
                    instance: bindings.spec_instance(),
                    vertices_count: vertices.spec_alloc().vertices_count,
                    start_index: options.start_index,
                    end_index: options.end_index,
                },
            ),
            final(self).same_cache(old(self)),
            final(self).spec_frame_active() == old(self).spec_frame_active(),
            final(self).spec_clear() == old(self).spec_clear(),
            final(self).spec_width() == old(self).spec_width(),
            final(self).spec_height() == old(self).spec_height(),
    {
        let instance: u64;
        match self.pipeline(shader) {
            Some(pb) => {
                if !(pb.kind() == PipelineKind::Render) {
                    return Err(RenderError::PipelineKindMismatch);
                }
                instance = pb.instance();
            },
            None => {
                return Err(RenderError::ShaderNotCompiled);
            },
        }
        if !vertices.loaded() {
            return Err(RenderError::BindingMismatch);
        }
        if bindings.instance() != instance {
            return Err(RenderError::BindingMismatch);
        }
        self.commands.push(
            Command::Draw {
                shader,
                instance,
                vertices_count: vertices.count(),
                start_index: options.start_index,
                end_index: options.end_index,
            },
        );
        Ok(())
    }

    /// The outcome a dispatch request has against this context.
    pub open spec fn spec_compute_outcome(&self, shader: u64, bindings: Bindings) -> Result<
        (),
        RenderError,
    > {
        if !self.spec_has(shader) {
            Err(RenderError::ShaderNotCompiled)
        } else if self.spec_at(shader).spec_kind() != PipelineKind::Compute {
            Err(RenderError::PipelineKindMismatch)
        } else if bindings.spec_instance() != self.spec_at(shader).spec_instance() {
            Err(RenderError::BindingMismatch)
        } else {
            Ok(())
        }
    }

    /// Records a dispatch through the compiled pipeline of the key: the
    /// shader must have a cached compute pipeline and the bindings must
    /// have been resolved against the cached pipeline instance. On failure
    /// nothing is recorded.
    pub fn run_compute_pipeline(
        &mut self,
        shader: u64,
        bindings: &Bindings,
        work_groups: &WorkGroups,
    ) -> (r: Result<(), RenderError>)
        requires
            old(self).wf(),
        ensures
            final(self).wf(),
            r == old(self).spec_compute_outcome(shader, *bindings),
            r is Err ==> *final(self) == *old(self),
            r is Ok ==> final(self).spec_commands() == old(self).spec_commands().push(
                Command::Dispatch {
                    shader,
                    instance: bindings.spec_instance(),
                    x: work_groups.x,
                    y: work_groups.y,
                    z: work_groups.z,
                },
            ),
            final(self).same_cache(old(self)),
            final(self).spec_frame_active() == old(self).spec_frame_active(),
            final(self).spec_clear() == old(self).spec_clear(),
            final(self).spec_width() == old(self).spec_width(),
            final(self).spec_height() == old(self).spec_height(),
    {
        let instance: u64;
        match self.pipeline(shader) {
            Some(pb) => {
                if !(pb.kind() == PipelineKind::Compute) {
                    return Err(RenderError::PipelineKindMismatch);
                }
                instance = pb.instance();
            },
            None => {
                return Err(RenderError::ShaderNotCompiled);
            },
        }
        if bindings.instance() != instance {
            return Err(RenderError::BindingMismatch);
        }
        self.commands.push(
            Command::Dispatch {
                shader,
                instance,
                x: work_groups.x,
                y: work_groups.y,
                z: work_groups.z,
            },
        );
        Ok(())
    }
}

} // verus!
