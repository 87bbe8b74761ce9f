use dotrix_renderer::assets::Mesh;
use dotrix_renderer::binding::{BindGroup, Binding, BindingKind, Stage};
use dotrix_renderer::error::RenderError;
use dotrix_renderer::handles::{
    Sampler, TextureBuffer, TextureUsages, UniformBuffer, VertexBuffer, WorkGroups,
};
use dotrix_renderer::ids::Id;
use dotrix_renderer::pipeline::{Pipeline, PipelineLayout, PipelineOptions};
use dotrix_renderer::renderer::{startup, Renderer};
use dotrix_renderer::shader::Shader;

fn ready_renderer() -> Renderer {
    let mut renderer = Renderer::default();
    startup(&mut renderer, 800, 600);
    renderer
}

fn compiled_shader(renderer: &Renderer, name: &str) -> Shader {
    let mut shader = Shader::new(String::from(name), String::from("fn main() {}"));
    assert_eq!(shader.load(renderer), Ok(()));
    assert!(shader.loaded());
    shader
}

fn loaded_mesh(renderer: &Renderer) -> Mesh {
    let mut mesh = Mesh::default();
    let outcome = renderer.load_vertex_buffer(
        &mut mesh.vertex_buffer,
        &[0, 1, 2, 3, 4, 5],
        None,
        3,
    );
    assert_eq!(outcome, Ok(()));
    mesh
}

fn loaded_uniform(renderer: &Renderer) -> UniformBuffer {
    let mut buffer = UniformBuffer::default();
    assert_eq!(renderer.load_uniform_buffer(&mut buffer, &[0; 16]), Ok(()));
    buffer
}

fn render_layout(shader: &Shader, mesh: &Mesh, uniform: &UniformBuffer) -> PipelineLayout {
    PipelineLayout {
        label: String::from("solid"),
        mesh: Some(*mesh),
        shader: shader.clone(),
        bindings: vec![BindGroup::new(
            String::from("globals"),
            vec![Binding::Uniform(String::from("projection"), Stage::Vertex, *uniform)],
        )],
        options: PipelineOptions::default(),
    }
}

#[test]
fn bind_compiles_unseen_shader_once() {
    let mut renderer = ready_renderer();
    let shader = compiled_shader(&renderer, "solid");
    let mesh = loaded_mesh(&renderer);
    let uniform = loaded_uniform(&renderer);
    let id: Id<Shader> = Id::new(7);
    let mut pipeline = Pipeline::new(id);

    assert!(!renderer.has_pipeline(id));
    assert_eq!(renderer.bind(&mut pipeline, render_layout(&shader, &mesh, &uniform)), Ok(()));
    assert!(renderer.has_pipeline(id));

    // The stored bindings reflect the layout resolved against the new
    // compiled pipeline.
    assert_eq!(pipeline.bindings.len(), 1);
    let slot = pipeline.bindings.slot(0);
    assert_eq!(slot.label, String::from("projection"));
    assert_eq!(slot.kind, BindingKind::Uniform);
    assert_eq!(slot.stage, Stage::Vertex);

    // Binding again re-resolves without recompiling.
    assert_eq!(renderer.bind(&mut pipeline, render_layout(&shader, &mesh, &uniform)), Ok(()));
    assert!(renderer.has_pipeline(id));
}

#[test]
fn bind_rejects_unloaded_resource() {
    let mut renderer = ready_renderer();
    let shader = compiled_shader(&renderer, "solid");
    let mesh = loaded_mesh(&renderer);
    let never_loaded = UniformBuffer::default();
    let id: Id<Shader> = Id::new(7);
    let mut pipeline = Pipeline::new(id);

    let outcome = renderer.bind(&mut pipeline, render_layout(&shader, &mesh, &never_loaded));
    assert_eq!(outcome, Err(RenderError::BindingMismatch));
    // A failed bind leaves no cache entry behind.
    assert!(!renderer.has_pipeline(id));
    assert_eq!(pipeline.bindings.len(), 0);
}

#[test]
fn bind_rejects_uncompiled_shader() {
    let mut renderer = ready_renderer();
    let empty = Shader::new(String::from("empty"), String::new());
    let mesh = loaded_mesh(&renderer);
    let uniform = loaded_uniform(&renderer);
    let id: Id<Shader> = Id::new(9);
    let mut pipeline = Pipeline::new(id);

    let outcome = renderer.bind(&mut pipeline, render_layout(&empty, &mesh, &uniform));
    assert_eq!(outcome, Err(RenderError::ShaderNotCompiled));
    assert!(!renderer.has_pipeline(id));
}

#[test]
fn bind_rejects_layout_that_does_not_fit() {
    let mut renderer = ready_renderer();
    let shader = compiled_shader(&renderer, "solid");
    let mesh = loaded_mesh(&renderer);
    let uniform = loaded_uniform(&renderer);
    let id: Id<Shader> = Id::new(7);
    let mut pipeline = Pipeline::new(id);
    assert_eq!(renderer.bind(&mut pipeline, render_layout(&shader, &mesh, &uniform)), Ok(()));

    // The cached pipeline expects one uniform slot; a sampler in its place
    // does not match positionally.
    let mut sampler = Sampler::default();
    assert_eq!(renderer.load_sampler(&mut sampler), Ok(()));
    let wrong = PipelineLayout {
        label: String::from("solid"),
        mesh: Some(mesh),
        shader: shader.clone(),
        bindings: vec![BindGroup::new(
            String::from("globals"),
            vec![Binding::Sampler(String::from("s"), Stage::Fragment, sampler)],
        )],
        options: PipelineOptions::default(),
    };
    assert_eq!(renderer.bind(&mut pipeline, wrong), Err(RenderError::BindingMismatch));
}

#[test]
fn drop_pipeline_forces_recompile() {
    let mut renderer = ready_renderer();
    let shader = compiled_shader(&renderer, "solid");
    let mesh = loaded_mesh(&renderer);
    let uniform = loaded_uniform(&renderer);
    let id: Id<Shader> = Id::new(7);
    let mut pipeline = Pipeline::new(id);
    assert_eq!(renderer.bind(&mut pipeline, render_layout(&shader, &mesh, &uniform)), Ok(()));
    assert!(renderer.has_pipeline(id));

    assert_eq!(renderer.drop_pipeline(id), Ok(()));
    assert!(!renderer.has_pipeline(id));
    assert!(!renderer.loaded());

    // Binding again compiles a fresh pipeline rather than reusing the
    // dropped one: bindings resolved before the drop are stale now.
    let stale = pipeline.bindings.clone();
    assert_eq!(renderer.bind(&mut pipeline, render_layout(&shader, &mesh, &uniform)), Ok(()));
    assert!(renderer.has_pipeline(id));
    assert_ne!(stale.instance(), pipeline.bindings.instance());
}

#[test]
fn stale_bindings_are_rejected_by_run() {
    let mut renderer = ready_renderer();
    let shader = compiled_shader(&renderer, "solid");
    let mesh = loaded_mesh(&renderer);
    let uniform = loaded_uniform(&renderer);
    let id: Id<Shader> = Id::new(7);
    let mut pipeline = Pipeline::new(id);
    assert_eq!(renderer.bind(&mut pipeline, render_layout(&shader, &mesh, &uniform)), Ok(()));

    let mut stale = pipeline.clone();
    assert_eq!(renderer.drop_pipeline(id), Ok(()));
    let mut fresh = Pipeline::new(id);
    assert_eq!(renderer.bind(&mut fresh, render_layout(&shader, &mesh, &uniform)), Ok(()));

    assert_eq!(renderer.run(&mut fresh, &mesh), Ok(()));
    assert_eq!(renderer.run(&mut stale, &mesh), Err(RenderError::BindingMismatch));
}

#[test]
fn reload_empties_the_cache() {
    let mut renderer = ready_renderer();
    let shader = compiled_shader(&renderer, "solid");
    let mesh = loaded_mesh(&renderer);
    let uniform = loaded_uniform(&renderer);
    let seven: Id<Shader> = Id::new(7);
    let eight: Id<Shader> = Id::new(8);
    let mut first = Pipeline::new(seven);
    let mut second = Pipeline::new(eight);
    assert_eq!(renderer.bind(&mut first, render_layout(&shader, &mesh, &uniform)), Ok(()));
    assert_eq!(renderer.bind(&mut second, render_layout(&shader, &mesh, &uniform)), Ok(()));

    assert_eq!(renderer.reload(), Ok(()));
    assert!(!renderer.has_pipeline(seven));
    assert!(!renderer.has_pipeline(eight));
    assert!(!renderer.loaded());
}

#[test]
fn drop_pipeline_keeps_other_entries() {
    let mut renderer = ready_renderer();
    let shader = compiled_shader(&renderer, "solid");
    let mesh = loaded_mesh(&renderer);
    let uniform = loaded_uniform(&renderer);
    let seven: Id<Shader> = Id::new(7);
    let eight: Id<Shader> = Id::new(8);
    let mut first = Pipeline::new(seven);
    let mut second = Pipeline::new(eight);
    assert_eq!(renderer.bind(&mut first, render_layout(&shader, &mesh, &uniform)), Ok(()));
    assert_eq!(renderer.bind(&mut second, render_layout(&shader, &mesh, &uniform)), Ok(()));

    assert_eq!(renderer.drop_pipeline(seven), Ok(()));
    assert!(!renderer.has_pipeline(seven));
    assert!(renderer.has_pipeline(eight));
}

#[test]
fn binding_resolution_is_deterministic() {
    let mut renderer = ready_renderer();
    let shader = compiled_shader(&renderer, "solid");
    let mesh = loaded_mesh(&renderer);
    let uniform = loaded_uniform(&renderer);
    let id: Id<Shader> = Id::new(7);
    let mut first = Pipeline::new(id);
    let mut second = Pipeline::new(id);
    assert_eq!(renderer.bind(&mut first, render_layout(&shader, &mesh, &uniform)), Ok(()));
    assert_eq!(renderer.bind(&mut second, render_layout(&shader, &mesh, &uniform)), Ok(()));
    assert_eq!(first.bindings, second.bindings);
}

#[test]
fn compute_pipeline_refuses_draws() {
    let mut renderer = ready_renderer();
    let shader = compiled_shader(&renderer, "particles");
    let uniform = loaded_uniform(&renderer);
    let id: Id<Shader> = Id::new(3);
    let mut pipeline = Pipeline::new(id);
    // No mesh in the layout: the compiled pipeline dispatches.
    let layout = PipelineLayout {
        label: String::from("particles"),
        mesh: None,
        shader: shader.clone(),
        bindings: vec![BindGroup::new(
            String::from("globals"),
            vec![Binding::Uniform(String::from("time"), Stage::Compute, uniform)],
        )],
        options: PipelineOptions::default(),
    };
    assert_eq!(renderer.bind(&mut pipeline, layout), Ok(()));
    assert_eq!(renderer.compute(&mut pipeline, WorkGroups { x: 8, y: 8, z: 1 }), Ok(()));

    let mesh = loaded_mesh(&renderer);
    assert_eq!(renderer.run(&mut pipeline, &mesh), Err(RenderError::PipelineKindMismatch));
}

#[test]
fn render_pipeline_refuses_dispatch() {
    let mut renderer = ready_renderer();
    let shader = compiled_shader(&renderer, "solid");
    let mesh = loaded_mesh(&renderer);
    let uniform = loaded_uniform(&renderer);
    let id: Id<Shader> = Id::new(7);
    let mut pipeline = Pipeline::new(id);
    assert_eq!(renderer.bind(&mut pipeline, render_layout(&shader, &mesh, &uniform)), Ok(()));
    assert_eq!(renderer.run(&mut pipeline, &mesh), Ok(()));
    assert_eq!(
        renderer.compute(&mut pipeline, WorkGroups { x: 1, y: 1, z: 1 }),
        Err(RenderError::PipelineKindMismatch)
    );
}

#[test]
fn run_without_compiled_pipeline_fails() {
    let mut renderer = ready_renderer();
    let mesh = loaded_mesh(&renderer);
    let mut pipeline = Pipeline::new(Id::new(42));
    assert_eq!(renderer.run(&mut pipeline, &mesh), Err(RenderError::ShaderNotCompiled));
}

#[test]
fn run_rejects_unloaded_mesh() {
    let mut renderer = ready_renderer();
    let shader = compiled_shader(&renderer, "solid");
    let mesh = loaded_mesh(&renderer);
    let uniform = loaded_uniform(&renderer);
    let id: Id<Shader> = Id::new(7);
    let mut pipeline = Pipeline::new(id);
    assert_eq!(renderer.bind(&mut pipeline, render_layout(&shader, &mesh, &uniform)), Ok(()));
    let empty = Mesh::default();
    assert_eq!(renderer.run(&mut pipeline, &empty), Err(RenderError::BindingMismatch));
}

#[test]
fn loads_need_startup() {
    let renderer = Renderer::default();
    let mut vertices = VertexBuffer::default();
    assert_eq!(
        renderer.load_vertex_buffer(&mut vertices, &[0, 1], None, 1),
        Err(RenderError::NotReady)
    );
    assert!(!vertices.loaded());
    let mut uniform = UniformBuffer::default();
    assert_eq!(renderer.load_uniform_buffer(&mut uniform, &[0; 4]), Err(RenderError::NotReady));
    assert!(!uniform.loaded());
}

#[test]
fn texture_upload_records_extent_and_usages() {
    let renderer = ready_renderer();
    let mut texture = TextureBuffer::default();
    let layer_a: &[u8] = &[0; 8];
    let layer_b: &[u8] = &[1; 8];
    let outcome = renderer.load_texture_buffer(&mut texture, 2, 2, &[layer_a, layer_b]);
    assert_eq!(outcome, Ok(()));
    assert!(texture.loaded());
    let alloc = texture.allocation();
    assert_eq!(alloc.width, 2);
    assert_eq!(alloc.height, 2);
    assert_eq!(alloc.layers, 2);
    assert!(alloc.usages.texture);
    assert!(alloc.usages.write);
    assert!(!alloc.usages.storage);
}

#[test]
fn texture_usages_builder_sets_flags() {
    let usages = TextureUsages::create();
    assert!(!usages.texture && !usages.write && !usages.read);
    let usages = usages.texture().write().read().storage().attachment();
    assert!(usages.texture && usages.write && usages.read && usages.storage && usages.attachment);
}

#[test]
fn vertex_upload_replaces_prior_allocation() {
    let renderer = ready_renderer();
    let mut vertices = VertexBuffer::default();
    assert_eq!(renderer.load_vertex_buffer(&mut vertices, &[0; 12], None, 3), Ok(()));
    assert_eq!(vertices.count(), 3);
    let indices: &[u8] = &[0, 0, 1, 0, 2, 0];
    assert_eq!(renderer.load_vertex_buffer(&mut vertices, &[0; 24], Some(indices), 6), Ok(()));
    assert_eq!(vertices.count(), 6);
}
