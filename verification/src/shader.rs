use vstd::prelude::*;

use crate::error::RenderError;
use crate::handles::ShaderModule;
use crate::renderer::Renderer;

verus! {

/// A shader asset: a named source together with the backend module handle
/// the source compiles into. The asset counts as loaded exactly when its
/// module compiled successfully.
#[derive(Clone, Debug)]
pub struct Shader {
    /// Human-readable name, passed through to the backend.
    pub name: String,
    /// Source text; opaque payload except that an empty source never
    /// compiles.
    pub code: String,
    /// The backend module compiled from the source.
    pub module: ShaderModule,
}

impl Shader {
    /// Whether the shader's module compiled successfully.
    pub open spec fn spec_loaded(&self) -> bool {
        self.module.spec_loaded()
    }

    /// Whether a lazy-load pass over this shader ends with it loaded: it
    /// already is, or its source is non-empty and will compile.
    pub open spec fn spec_compiles(&self) -> bool {
        self.spec_loaded() || self.code@.len() > 0
    }

    /// Builds a not-yet-compiled asset from a name and a source.
    pub fn new(name: String, code: String) -> (s: Self)
        ensures
            s.name == name,
            s.code == code,
            !s.spec_loaded(),
    {
        Shader { name, code, module: ShaderModule::default() }
    }

    /// Reports whether the shader's module compiled successfully.
    pub fn loaded(&self) -> (r: bool)
        ensures
            r == self.spec_loaded(),
    {
        self.module.loaded()
    }

    /// Attempts to compile the shader's module through the service,
    /// skipping the work if the module already compiled. One such attempt
    /// is exactly one lazy-load pass step over this asset.
    pub fn load(&mut self, renderer: &Renderer) -> (r: Result<(), RenderError>)
        ensures
            r is Ok <==> (old(self).spec_loaded() || renderer.is_ready()),
            r is Ok ==> pass_step(*old(self), *final(self)),
            r is Err ==> *final(self) == *old(self) && r == Err::<(), RenderError>(
                RenderError::NotReady,
            ),
    {
        if self.module.loaded() {
            return Ok(());
        }
        renderer.load_shader_module(&mut self.module, self.name.as_str(), self.code.as_str())
    }
}

/// Relates a shader asset to its state after one lazy-load pass attempted
/// it: the name and source are kept, an already compiled module is left
/// untouched, and otherwise the module ends loaded exactly when the source
/// is non-empty.
pub open spec fn pass_step(before: Shader, after: Shader) -> bool {
    &&& after.name == before.name
    &&& after.code == before.code
    &&& after.spec_loaded() == before.spec_compiles()
}

/// Whether every shader in the sequence is loaded.
pub open spec fn all_shaders_loaded(shaders: Seq<Shader>) -> bool {
    forall|i: int| 0 <= i < shaders.len() ==> (#[trigger] shaders[i]).spec_loaded()
}

/// A lazy-load pass leaves an already loaded shader untouched: attempting
/// it again changes nothing it exposes, so the pass is idempotent for
/// loaded shaders.
pub proof fn lemma_pass_keeps_loaded_shaders(before: Shader, after: Shader)
    requires
        pass_step(before, after),
        before.spec_loaded(),
    ensures
        after.spec_loaded(),
        after.name == before.name,
        after.code == before.code,
{
}

/// A lazy-load pass is idempotent: a second pass over the outcome of a
/// first ends in the same observable state.
pub proof fn lemma_pass_idempotent(first: Shader, second: Shader, third: Shader)
    requires
        pass_step(first, second),
        pass_step(second, third),
    ensures
        third.name == second.name,
        third.code == second.code,
        third.spec_loaded() == second.spec_loaded(),
{
}

/// A shader whose module is not compiled and whose source is empty fails
/// the pass, so the pass cannot end with every shader loaded.
pub proof fn lemma_failed_shader_blocks_pass(
    before: Seq<Shader>,
    after: Seq<Shader>,
    witness: int,
)
    requires
        before.len() == after.len(),
        forall|i: int| 0 <= i < before.len() ==> pass_step(before[i], #[trigger] after[i]),
        0 <= witness < before.len(),
        !before[witness].spec_compiles(),
    ensures
        !all_shaders_loaded(after),
{
    assert(!after[witness].spec_loaded());
}

} // verus!
