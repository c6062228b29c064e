use std::rc::Rc;

use radiance_switch::engine::{egl_config_attributes, egl_context_attributes, light_count, pack_light_vec4s, EGL_CONTEXT_CLIENT_VERSION, EGL_DEPTH_SIZE, EGL_NONE, LIGHT_SLOTS, MAX_LIGHTS};
use radiance_switch::material::{BlendMode, CullMode, DepthMode, SwitchGLMaterial};
use radiance_switch::render_object::SwitchGLRenderObject;
use radiance_switch::shader::{info_log_capacity, ShaderBuild, ShaderProgram, SwitchGLShader, UniformLocations};
use radiance_switch::vertex::{VertexBuffer, VertexComponents, VertexLayout};

#[test]
fn light_packing_fills_and_pads() {
    let lights = [[1, 2, 3, 4], [5, 6, 7, 8]];
    let packed = pack_light_vec4s(&lights, 0);
    assert_eq!(packed.len(), 64);
    assert_eq!(&packed[0..8], &[1, 2, 3, 4, 5, 6, 7, 8]);
    assert!(packed[8..].iter().all(|v| *v == 0));
}

#[test]
fn light_packing_keeps_first_four() {
    let lights: Vec<[u32; 4]> = (0..20u32).map(|i| [i, i, i, 100 + i]).collect();
    let packed = pack_light_vec4s(&lights, 9);
    assert_eq!(packed.len(), 4 * LIGHT_SLOTS);
    assert_eq!(packed[12..16], [3, 3, 3, 103]);
    assert!(packed[16..].iter().all(|v| *v == 9));
    assert_eq!(light_count(20), MAX_LIGHTS);
    assert_eq!(light_count(4), 4);
    assert_eq!(light_count(3), 3);
    assert_eq!(light_count(0), 0);
    assert_eq!(pack_light_vec4s::<u8>(&[], 7), vec![7u8; 64]);
}

#[test]
fn egl_attribute_lists() {
    let config = egl_config_attributes();
    assert_eq!(config.len(), 15);
    assert_eq!(config[12], EGL_DEPTH_SIZE);
    assert_eq!(config[13], 24);
    assert_eq!(*config.last().unwrap(), EGL_NONE);
    assert_eq!(egl_context_attributes(), vec![EGL_CONTEXT_CLIENT_VERSION, 2, EGL_NONE]);
}

#[test]
fn info_log_capacity_clamps_negative() {
    assert_eq!(info_log_capacity(-5), 0);
    assert_eq!(info_log_capacity(0), 0);
    assert_eq!(info_log_capacity(120), 120);
}

#[test]
fn material_debug_name_of_object() {
    let locations = UniformLocations {
        model_matrix: -1,
        view_matrix: -1,
        projection_matrix: -1,
        ambient_light: -1,
        light_pos: -1,
        light_color: -1,
        fog_color: -1,
        fog_params: -1,
        tint: -1,
        material_misc: -1,
        uv_xform: -1,
        time_sec: -1,
    };
    let _ = locations;
    let mut build = ShaderBuild::new(ShaderProgram::GradientY);
    while build.next_step().is_some() {
        build.step_done(true);
    }
    let shader = Rc::new(SwitchGLShader::new(&build, 1, 2, 3, &[-1; 12], "").unwrap());
    let material = Rc::new(SwitchGLMaterial::new(
        "sky".to_string(),
        shader,
        vec![],
        (),
        BlendMode::Opaque,
        DepthMode::Disabled,
        CullMode::Back,
    ));
    let vertices = VertexBuffer::new(VertexLayout::from_components(VertexComponents::new(true, false, true, false)), vec![]);
    let o = SwitchGLRenderObject::new(1, 2, vertices, vec![0, 1, 2], material, 0u8);
    assert_eq!(o.material_debug_name(), Some("sky"));
    assert_eq!(o.indices(), &[0, 1, 2][..]);
}
