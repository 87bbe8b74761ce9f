use dotrix_renderer::error::RenderError;
use dotrix_renderer::handles::WorkGroups;
use dotrix_renderer::ids::Id;
use dotrix_renderer::pipeline::Pipeline;
use dotrix_renderer::renderer::{bind, release, resize, startup, Renderer};
use dotrix_renderer::shader::Shader;

fn ready_renderer() -> Renderer {
    let mut renderer = Renderer::default();
    let sampler = startup(&mut renderer, 800, 600);
    assert!(sampler.loaded());
    assert!(renderer.ready());
    renderer
}

#[test]
fn cycle_starts_at_one() {
    let renderer = Renderer::default();
    assert_eq!(renderer.cycle(), 1);
}

#[test]
fn fresh_renderer_is_unbound() {
    let renderer = Renderer::default();
    assert!(!renderer.ready());
    assert!(!renderer.loaded());
}

#[test]
fn release_advances_cycle() {
    let mut renderer = ready_renderer();
    assert_eq!(renderer.cycle(), 1);
    for expected in 2..6u32 {
        assert_eq!(release(&mut renderer), Ok(()));
        assert_eq!(renderer.cycle(), expected as usize);
    }
}

#[test]
fn release_before_startup_fails() {
    let mut renderer = Renderer::default();
    assert_eq!(release(&mut renderer), Err(RenderError::NotReady));
    assert_eq!(renderer.cycle(), 1);
}

#[test]
fn run_before_startup_fails_fatally() {
    let mut renderer = Renderer::default();
    let mut pipeline = Pipeline::new(Id::new(7));
    let mesh = dotrix_renderer::assets::Mesh::default();
    let outcome = renderer.run(&mut pipeline, &mesh);
    assert_eq!(outcome, Err(RenderError::NotReady));
    assert!(!renderer.ready());
    assert_eq!(renderer.cycle(), 1);
    assert!(!renderer.loaded());
}

#[test]
fn compute_before_startup_fails_fatally() {
    let mut renderer = Renderer::default();
    let mut pipeline = Pipeline::new(Id::new(7));
    let outcome = renderer.compute(&mut pipeline, WorkGroups { x: 1, y: 1, z: 1 });
    assert_eq!(outcome, Err(RenderError::NotReady));
}

#[test]
fn resize_needs_startup() {
    let mut renderer = Renderer::default();
    assert_eq!(resize(&mut renderer, 1024, 768), Err(RenderError::NotReady));
    let mut renderer = ready_renderer();
    assert_eq!(resize(&mut renderer, 1024, 768), Ok(()));
}

#[test]
fn startup_is_idempotent() {
    let mut renderer = Renderer::default();
    let first = startup(&mut renderer, 800, 600);
    assert!(first.loaded());
    let second = startup(&mut renderer, 1024, 768);
    assert!(second.loaded());
    assert!(renderer.ready());
}

#[test]
fn frame_bind_loads_every_shader() {
    let mut renderer = ready_renderer();
    let mut shaders = vec![
        Shader::new(String::from("sky"), String::from("fn main() {}")),
        Shader::new(String::from("terrain"), String::from("fn main() {}")),
    ];
    assert!(!renderer.loaded());
    assert_eq!(bind(&mut renderer, &mut shaders), Ok(()));
    assert!(shaders[0].loaded());
    assert!(shaders[1].loaded());
    assert!(renderer.loaded());
}

#[test]
fn frame_bind_before_startup_fails() {
    let mut renderer = Renderer::default();
    let mut shaders = vec![Shader::new(String::from("sky"), String::from("fn main() {}"))];
    assert_eq!(bind(&mut renderer, &mut shaders), Err(RenderError::NotReady));
    assert!(!shaders[0].loaded());
}

#[test]
fn failed_shader_keeps_renderer_unloaded() {
    // One shader's source is empty and never compiles: every frame-bind
    // pass retries it and leaves the already loaded shader untouched.
    let mut renderer = ready_renderer();
    let mut shaders = vec![
        Shader::new(String::from("good"), String::from("fn main() {}")),
        Shader::new(String::from("bad"), String::new()),
    ];
    assert_eq!(bind(&mut renderer, &mut shaders), Ok(()));
    assert!(shaders[0].loaded());
    assert!(!shaders[1].loaded());
    assert!(!renderer.loaded());

    assert_eq!(bind(&mut renderer, &mut shaders), Ok(()));
    assert!(shaders[0].loaded());
    assert!(!shaders[1].loaded());
    assert!(!renderer.loaded());

    // Once the source arrives, the next pass loads it and the flag flips.
    shaders[1].code = String::from("fn main() {}");
    assert_eq!(bind(&mut renderer, &mut shaders), Ok(()));
    assert!(shaders[1].loaded());
    assert!(renderer.loaded());
}

#[test]
fn frame_bind_skips_pass_once_loaded() {
    let mut renderer = ready_renderer();
    let mut shaders = vec![Shader::new(String::from("sky"), String::from("fn main() {}"))];
    assert_eq!(bind(&mut renderer, &mut shaders), Ok(()));
    assert!(renderer.loaded());
    // A shader added while `loaded` is true is not attempted by the next
    // frame-bind: the steady state skips the pass entirely.
    shaders.push(Shader::new(String::from("late"), String::from("fn main() {}")));
    assert_eq!(bind(&mut renderer, &mut shaders), Ok(()));
    assert!(!shaders[1].loaded());
    assert!(renderer.loaded());
}

#[test]
fn reload_forces_full_pass() {
    let mut renderer = ready_renderer();
    let mut shaders = vec![Shader::new(String::from("sky"), String::from("fn main() {}"))];
    assert_eq!(bind(&mut renderer, &mut shaders), Ok(()));
    assert!(renderer.loaded());
    assert_eq!(renderer.reload(), Ok(()));
    assert!(!renderer.loaded());
    assert_eq!(bind(&mut renderer, &mut shaders), Ok(()));
    assert!(renderer.loaded());
}

#[test]
fn set_clear_color_keeps_state() {
    let mut renderer = ready_renderer();
    renderer.set_clear_color(dotrix_renderer::color::Color::rgba(1, 2, 3, 255));
    assert!(renderer.ready());
    assert_eq!(renderer.cycle(), 1);
}
