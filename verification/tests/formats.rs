use dotrix_renderer::attributes::{AttributeFormat, AttributeScalar};
use dotrix_renderer::color::Color;
use dotrix_renderer::handles::{Sampler, ShaderModule, StorageBuffer, UniformBuffer};
use dotrix_renderer::pipeline::{DepthBufferMode, Options, PipelineOptions};
use dotrix_renderer::renderer::{startup, Renderer};

#[test]
fn attribute_sizes_are_exact() {
    assert_eq!(AttributeFormat::Float32.size(), 4);
    assert_eq!(AttributeFormat::Float32x2.size(), 8);
    assert_eq!(AttributeFormat::Float32x3.size(), 12);
    assert_eq!(AttributeFormat::Float32x4.size(), 16);
    assert_eq!(AttributeFormat::Uint16x2.size(), 4);
    assert_eq!(AttributeFormat::Uint16x4.size(), 8);
    assert_eq!(AttributeFormat::Uint32.size(), 4);
    assert_eq!(AttributeFormat::Uint32x2.size(), 8);
    assert_eq!(AttributeFormat::Uint32x3.size(), 12);
    assert_eq!(AttributeFormat::Uint32x4.size(), 16);
}

#[test]
fn attribute_type_ids_name_scalar_and_lanes() {
    let t = AttributeFormat::Float32x3.type_id();
    assert_eq!(t.scalar, AttributeScalar::Float32);
    assert_eq!(t.lanes, 3);
    let t = AttributeFormat::Uint16x4.type_id();
    assert_eq!(t.scalar, AttributeScalar::Uint16);
    assert_eq!(t.lanes, 4);
    let t = AttributeFormat::Uint32.type_id();
    assert_eq!(t.scalar, AttributeScalar::Uint32);
    assert_eq!(t.lanes, 1);
}

#[test]
fn attribute_size_matches_type_id() {
    for format in [
        AttributeFormat::Float32,
        AttributeFormat::Float32x2,
        AttributeFormat::Float32x3,
        AttributeFormat::Float32x4,
        AttributeFormat::Uint16x2,
        AttributeFormat::Uint16x4,
        AttributeFormat::Uint32,
        AttributeFormat::Uint32x2,
        AttributeFormat::Uint32x3,
        AttributeFormat::Uint32x4,
    ] {
        let t = format.type_id();
        let lane = match t.scalar {
            AttributeScalar::Float32 => 4,
            AttributeScalar::Uint16 => 2,
            AttributeScalar::Uint32 => 4,
        };
        assert_eq!(format.size(), t.lanes as usize * lane);
    }
}

#[test]
fn default_options_draw_one_instance() {
    let options = Options::default();
    assert!(options.scissors_rect.is_none());
    assert_eq!(options.start_index, 0);
    assert_eq!(options.end_index, 1);
}

#[test]
fn default_pipeline_options_write_depth() {
    let options = PipelineOptions::default();
    assert_eq!(options.depth_buffer_mode, DepthBufferMode::Write);
    assert!(!options.disable_cull_mode);
}

#[test]
fn default_color_is_dark_slate() {
    let color = Color::default();
    assert_eq!((color.r, color.g, color.b, color.a), (26, 51, 77, 255));
    let red = Color::rgba(255, 0, 0, 255);
    assert_eq!(red.r, 255);
}

#[test]
fn shader_module_rejects_empty_source() {
    let mut renderer = Renderer::default();
    startup(&mut renderer, 640, 480);
    let mut module = ShaderModule::default();
    assert_eq!(renderer.load_shader_module(&mut module, "empty", ""), Ok(()));
    assert!(!module.loaded());
    assert_eq!(renderer.load_shader_module(&mut module, "ok", "fn main() {}"), Ok(()));
    assert!(module.loaded());
}

#[test]
fn buffer_uploads_record_sizes() {
    let mut renderer = Renderer::default();
    startup(&mut renderer, 640, 480);
    let mut uniform = UniformBuffer::default();
    assert_eq!(renderer.load_uniform_buffer(&mut uniform, &[0; 64]), Ok(()));
    assert_eq!(uniform.size(), 64);
    let mut storage = StorageBuffer::default();
    assert_eq!(renderer.load_storage_buffer(&mut storage, &[0; 256]), Ok(()));
    assert_eq!(storage.size(), 256);
    let mut sampler = Sampler::default();
    assert!(!sampler.loaded());
    assert_eq!(renderer.load_sampler(&mut sampler), Ok(()));
    assert!(sampler.loaded());
}
