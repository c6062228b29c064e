use std::rc::Rc;

use radiance_switch::draw::{attribute_arrays, blend_state, cull_state, depth_state, texture_bindings, AttribArray, BlendState, DepthState};
use radiance_switch::engine::{SceneReport, SwitchGLFrameState, DEFAULT_HEIGHT, DEFAULT_WIDTH};
use radiance_switch::factory::SwitchGLComponentFactory;
use radiance_switch::gl::{GL_BACK, GL_DST_COLOR, GL_DYNAMIC_DRAW, GL_FRONT, GL_ONE, GL_ONE_MINUS_SRC_ALPHA, GL_STATIC_DRAW, GL_TEXTURE0, GL_TEXTURE1, GL_ZERO};
use radiance_switch::imgui_renderer::{index_byte_offset, SwitchGLImguiRenderer};
use radiance_switch::material::{BlendMode, CullMode, DepthMode, SwitchGLMaterial};
use radiance_switch::render_object::{vertex_buffer_usage, SwitchGLRenderObject};
use radiance_switch::render_target::{allocation_extent, ReleasedObjects, SwitchGLRenderTarget, TargetObjects};
use radiance_switch::shader::{attribute_bindings, get_shader_program_data, sampler_bindings, uses_actor_ambient_floor, ShaderBuild, ShaderProgram, SwitchGLShader, UniformLocations};
use radiance_switch::texture::SwitchGLTexture;
use radiance_switch::vertex::{VertexBuffer, VertexComponent, VertexComponents, VertexLayout};

fn locations(base: i32) -> UniformLocations {
    UniformLocations {
        model_matrix: base,
        view_matrix: base + 1,
        projection_matrix: base + 2,
        ambient_light: base + 3,
        light_pos: base + 4,
        light_color: base + 5,
        fog_color: base + 6,
        fog_params: base + 7,
        tint: base + 8,
        material_misc: base + 9,
        uv_xform: base + 10,
        time_sec: -1,
    }
}

fn shader(p: ShaderProgram) -> SwitchGLShader {
    let mut build = ShaderBuild::new(p);
    while build.next_step().is_some() {
        build.step_done(true);
    }
    let l = locations(0);
    let looked_up = [
        l.model_matrix,
        l.view_matrix,
        l.projection_matrix,
        l.ambient_light,
        l.light_pos,
        l.light_color,
        l.fog_color,
        l.fog_params,
        l.tint,
        l.material_misc,
        l.uv_xform,
        l.time_sec,
    ];
    SwitchGLShader::new(&build, 11, 12, 13, &looked_up, "").unwrap()
}

fn material(textures: Vec<Rc<SwitchGLTexture>>) -> SwitchGLMaterial<[u32; 2]> {
    SwitchGLMaterial::new(
        "wall".to_string(),
        Rc::new(shader(ShaderProgram::Pal3Geom)),
        textures,
        [7, 9],
        BlendMode::AlphaTest,
        DepthMode::TestOnly,
        CullMode::Front,
    )
}

fn lit() -> VertexComponents {
    VertexComponents::new(true, true, true, false)
}

#[test]
fn layout_offsets_and_size() {
    let all = VertexLayout::from_components(VertexComponents::new(true, true, true, true));
    assert_eq!(all.size(), 40);
    assert_eq!(all.get_offset(VertexComponent::Position), Some(0));
    assert_eq!(all.get_offset(VertexComponent::Normal), Some(12));
    assert_eq!(all.get_offset(VertexComponent::TexCoord), Some(24));
    assert_eq!(all.get_offset(VertexComponent::TexCoord2), Some(32));

    let uv2 = VertexLayout::from_components(VertexComponents::new(true, false, true, true));
    assert_eq!(uv2.size(), 28);
    assert_eq!(uv2.get_offset(VertexComponent::Normal), None);
    assert_eq!(uv2.get_offset(VertexComponent::TexCoord), Some(12));
    assert_eq!(uv2.get_offset(VertexComponent::TexCoord2), Some(20));

    let empty = VertexLayout::from_components(VertexComponents::new(false, false, false, false));
    assert_eq!(empty.size(), 0);
    assert_eq!(empty.get_offset(VertexComponent::Position), None);
}

#[test]
fn program_data_table() {
    let d = get_shader_program_data(ShaderProgram::TexturedLightmap);
    assert_eq!(d.name, "TexturedLightmap");
    assert_eq!(d.vertex_source, "lightmap_texture.vert");
    assert_eq!(d.fragment_source, "lightmap_texture.frag");
    assert_eq!(d.components, VertexComponents::new(true, false, true, true));

    let d = get_shader_program_data(ShaderProgram::TerrainSplat);
    assert_eq!(d.name, "TerrainSplat");
    assert_eq!(d.vertex_source, "pal3_lit_common.vert");
    assert_eq!(d.components, lit());

    let d = get_shader_program_data(ShaderProgram::GrassWind);
    assert_eq!(d.fragment_source, "grass.frag");
    assert_eq!(d.components, VertexComponents::new(true, false, true, true));

    let d = get_shader_program_data(ShaderProgram::TexturedNoLight);
    assert_eq!(d.vertex_source, "simple_triangle.vert");
    assert_eq!(d.components, VertexComponents::new(true, false, true, false));
}

#[test]
fn attribute_and_sampler_bindings() {
    assert_eq!(attribute_bindings(lit()), vec![(0, "position"), (1, "texcoord"), (3, "normal")]);
    assert_eq!(
        attribute_bindings(VertexComponents::new(true, false, true, true)),
        vec![(0, "position"), (1, "texcoord"), (2, "texcoord2")]
    );
    assert_eq!(sampler_bindings(lit()), vec![("texSampler", 0)]);
    assert_eq!(
        sampler_bindings(VertexComponents::new(true, false, true, true)),
        vec![("texSampler", 0), ("texSampler2", 1)]
    );
}

#[test]
fn actor_ambient_floor_programs() {
    assert!(uses_actor_ambient_floor(ShaderProgram::Pal3Actor));
    assert!(uses_actor_ambient_floor(ShaderProgram::TexturedDynamicLit));
    assert!(!uses_actor_ambient_floor(ShaderProgram::Pal3Geom));
    assert!(!uses_actor_ambient_floor(ShaderProgram::TexturedNoLight));
}

#[test]
fn shader_getters() {
    let s = shader(ShaderProgram::Pal3Actor);
    assert_eq!(s.name(), "Pal3Actor");
    assert_eq!(s.program_kind(), ShaderProgram::Pal3Actor);
    assert_eq!(s.program(), 13);
    assert_eq!(s.gl_objects(), (11, 12, 13));
    assert_eq!(s.uniform_model_matrix(), 0);
    assert_eq!(s.uniform_view_matrix(), 1);
    assert_eq!(s.uniform_projection_matrix(), 2);
    assert_eq!(s.uniform_ambient_light(), 3);
    assert_eq!(s.uniform_light_pos(), 4);
    assert_eq!(s.uniform_light_color(), 5);
    assert_eq!(s.uniform_fog_color(), 6);
    assert_eq!(s.uniform_fog_params(), 7);
    assert_eq!(s.uniform_tint(), 8);
    assert_eq!(s.uniform_material_misc(), 9);
    assert_eq!(s.uniform_uv_xform(), 10);
    assert_eq!(s.uniform_time_sec(), -1);
}

#[test]
fn material_getters() {
    let m = material(vec![Rc::new(SwitchGLTexture::new(5, 64, 32))]);
    assert_eq!(m.name(), "wall");
    assert_eq!(m.debug_label(), "SwitchGLMaterial(wall)");
    assert_eq!(m.shader().name(), "Pal3Geom");
    assert_eq!(m.textures().len(), 1);
    assert_eq!(m.textures()[0].texture_id(), 5);
    assert_eq!(m.textures()[0].width(), 64);
    assert_eq!(m.textures()[0].height(), 32);
    assert_eq!(*m.params(), [7, 9]);
    assert_eq!(m.blend(), BlendMode::AlphaTest);
    assert_eq!(m.depth(), DepthMode::TestOnly);
    assert_eq!(m.cull(), CullMode::Front);
}

fn object(components: VertexComponents, indices: Vec<u32>) -> SwitchGLRenderObject<[u32; 2], [i32; 4]> {
    let vertices = VertexBuffer::new(VertexLayout::from_components(components), vec![0u8; 64]);
    SwitchGLRenderObject::new(21, 22, vertices, indices, Rc::new(material(vec![])), [1, 0, 0, 1])
}

#[test]
fn render_object_getters() {
    let mut o = object(lit(), vec![0, 1, 2, 2, 1, 3]);
    assert_eq!(o.vertex_buffer(), 21);
    assert_eq!(o.index_buffer(), 22);
    assert_eq!(o.index_count(), 6);
    assert_eq!(o.stride(), 32);
    assert_eq!(o.vertex_offset(), 0);
    assert_eq!(o.normal_offset(), 12);
    assert_eq!(o.tex_coord_offset(), 24);
    assert_eq!(o.tex_coord2_offset(), 0);
    assert!(o.has_component(VertexComponent::Normal));
    assert!(!o.has_component(VertexComponent::TexCoord2));
    assert_eq!(o.material().name(), "wall");
    assert_eq!(o.model_matrix(), [1, 0, 0, 1]);
    o.set_model_matrix([2, 3, 4, 5]);
    assert_eq!(o.model_matrix(), [2, 3, 4, 5]);
    o.update_vertex_data(vec![9u8; 32]);
    assert_eq!(o.vertices().data(), &[9u8; 32][..]);
    assert_eq!(o.stride(), 32);
}

#[test]
fn missing_position_reads_offset_zero() {
    let o = object(VertexComponents::new(false, false, true, false), vec![]);
    assert_eq!(o.vertex_offset(), 0);
    assert_eq!(o.tex_coord_offset(), 0);
    assert_eq!(o.stride(), 8);
    assert_eq!(o.index_count(), 0);
}

#[test]
fn usage_hint() {
    assert_eq!(vertex_buffer_usage(true), GL_DYNAMIC_DRAW);
    assert_eq!(vertex_buffer_usage(false), GL_STATIC_DRAW);
}

#[test]
fn blend_depth_cull_states() {
    assert_eq!(blend_state(BlendMode::Opaque), BlendState::Disabled);
    let premultiplied = BlendState::Enabled {
        src_rgb: GL_ONE,
        dst_rgb: GL_ONE_MINUS_SRC_ALPHA,
        src_alpha: GL_ONE,
        dst_alpha: GL_ONE_MINUS_SRC_ALPHA,
    };
    assert_eq!(blend_state(BlendMode::AlphaTest), premultiplied);
    assert_eq!(blend_state(BlendMode::AlphaBlend), premultiplied);
    assert_eq!(
        blend_state(BlendMode::Additive),
        BlendState::Enabled { src_rgb: GL_ONE, dst_rgb: GL_ONE, src_alpha: GL_ZERO, dst_alpha: GL_ONE }
    );
    assert_eq!(
        blend_state(BlendMode::Multiply),
        BlendState::Enabled { src_rgb: GL_DST_COLOR, dst_rgb: GL_ZERO, src_alpha: GL_ZERO, dst_alpha: GL_ONE }
    );
    assert_eq!(depth_state(DepthMode::TestWrite), DepthState { test: true, write: true });
    assert_eq!(depth_state(DepthMode::TestOnly), DepthState { test: true, write: false });
    assert_eq!(depth_state(DepthMode::Disabled), DepthState { test: false, write: false });
    assert_eq!(cull_state(CullMode::Back), Some(GL_BACK));
    assert_eq!(cull_state(CullMode::Front), Some(GL_FRONT));
    assert_eq!(cull_state(CullMode::Disabled), None);
}

#[test]
fn texture_units_for_materials() {
    assert!(texture_bindings(&material(vec![])).is_empty());
    let one = material(vec![Rc::new(SwitchGLTexture::new(4, 1, 1))]);
    assert_eq!(texture_bindings(&one), vec![(GL_TEXTURE0, 4)]);
    let three = material(vec![
        Rc::new(SwitchGLTexture::new(4, 1, 1)),
        Rc::new(SwitchGLTexture::new(6, 1, 1)),
        Rc::new(SwitchGLTexture::new(8, 1, 1)),
    ]);
    assert_eq!(texture_bindings(&three), vec![(GL_TEXTURE0, 4), (GL_TEXTURE1, 6)]);
}

#[test]
fn attribute_arrays_of_lit_object() {
    let o = object(lit(), vec![0]);
    assert_eq!(
        attribute_arrays(&o),
        vec![
            AttribArray::Enabled { index: 0, size: 3, stride: 32, offset: 0 },
            AttribArray::Enabled { index: 1, size: 2, stride: 32, offset: 24 },
            AttribArray::Disabled { index: 2 },
            AttribArray::Enabled { index: 3, size: 3, stride: 32, offset: 12 },
        ]
    );
}

#[test]
fn attribute_arrays_of_grass_object() {
    let o = object(VertexComponents::new(true, false, true, true), vec![0]);
    assert_eq!(
        attribute_arrays(&o),
        vec![
            AttribArray::Enabled { index: 0, size: 3, stride: 28, offset: 0 },
            AttribArray::Enabled { index: 1, size: 2, stride: 28, offset: 12 },
            AttribArray::Enabled { index: 2, size: 2, stride: 28, offset: 20 },
            AttribArray::Disabled { index: 3 },
        ]
    );
}

#[test]
fn shader_cache_builds_once() {
    let mut factory = SwitchGLComponentFactory::new();
    assert!(factory.cached_shader(ShaderProgram::GradientY).is_none());
    let mut builds = 0;
    let a = factory.create_shader(ShaderProgram::GradientY, || {
        builds += 1;
        shader(ShaderProgram::GradientY)
    });
    let b = factory.create_shader(ShaderProgram::GradientY, || {
        builds += 1;
        shader(ShaderProgram::GradientY)
    });
    assert_eq!(builds, 1);
    assert!(Rc::ptr_eq(&a, &b));
    assert_eq!(a.name(), "GradientY");
    let c = factory.create_shader(ShaderProgram::Pal3Prop, || shader(ShaderProgram::Pal3Prop));
    assert!(!Rc::ptr_eq(&a, &c));
    assert!(Rc::ptr_eq(&factory.cached_shader(ShaderProgram::GradientY).unwrap(), &a));
    assert!(Rc::ptr_eq(&factory.cached_shader(ShaderProgram::Pal3Prop).unwrap(), &c));
}

#[test]
fn render_target_lifecycle() {
    assert_eq!(allocation_extent(0, 0), (1, 1));
    assert_eq!(allocation_extent(640, 0), (640, 1));
    let objects = TargetObjects { fbo: 3, color: 4, depth: 5 };
    let mut t = SwitchGLRenderTarget::new(0, 480, objects);
    assert_eq!(t.extent(), (1, 480));
    assert_eq!(t.framebuffer(), 3);
    assert_eq!(t.imgui_texture_id(), 4);
    assert_eq!(t.resize_request(1, 480), None);
    assert_eq!(t.resize_request(0, 480), Some((1, 480)));
    assert_eq!(t.resize_request(800, 600), Some((800, 600)));
    assert_eq!(t.release(), ReleasedObjects { fbo: Some(3), color: Some(4), depth: Some(5) });
    assert_eq!(t.release(), ReleasedObjects { fbo: None, color: None, depth: None });
    assert_eq!(t.extent(), (1, 480));
    t.install(TargetObjects { fbo: 6, color: 0, depth: 7 }, 800, 600);
    assert_eq!(t.extent(), (800, 600));
    assert_eq!(t.release(), ReleasedObjects { fbo: Some(6), color: None, depth: Some(7) });
}

#[test]
fn frame_state_reports() {
    let mut f = SwitchGLFrameState::new();
    assert_eq!(f.view_extent(), (DEFAULT_WIDTH, DEFAULT_HEIGHT));
    assert_eq!(f.record_scene_frame(0, 3), SceneReport::Quiet);
    assert!(f.error_probe_due());
    assert_eq!(f.record_scene_frame(5, 4), SceneReport::FirstDraw { objects: 5, visible_entities: 4, frame: 2 });
    assert_eq!(f.record_scene_frame(5, 4), SceneReport::Quiet);
    assert_eq!(f.record_scene_frame(7, 6), SceneReport::ObjectCountChanged { from: 5, to: 7, frame: 4 });
    assert_eq!(f.record_scene_frame(0, 0), SceneReport::ObjectCountChanged { from: 7, to: 0, frame: 5 });
    assert_eq!(f.record_scene_frame(2, 2), SceneReport::ObjectCountChanged { from: 0, to: 2, frame: 6 });
    assert_eq!(f.scene_frames(), 6);
    assert!(!f.error_probe_due());
    f.notify_resized((1280, 720));
    assert_eq!(f.view_extent(), (1280, 720));
}

#[test]
fn error_probe_every_600_frames() {
    let mut f = SwitchGLFrameState::new();
    let mut due = vec![];
    for _ in 0..1201 {
        f.record_scene_frame(1, 1);
        if f.error_probe_due() {
            due.push(f.scene_frames());
        }
    }
    assert_eq!(due, vec![1, 601, 1201]);
}

#[test]
fn imgui_renderer_font_texture() {
    let mut r = SwitchGLImguiRenderer::new(30, 2, 31, 32);
    assert_eq!(r.program(), 30);
    assert_eq!(r.uniform_proj(), 2);
    assert_eq!(r.buffers(), (31, 32));
    assert_eq!(r.font_texture(), 0);
    assert_eq!(r.replace_font_texture(40), None);
    assert_eq!(r.replace_font_texture(41), Some(40));
    assert_eq!(r.font_texture(), 41);
    assert_eq!(index_byte_offset(0), 0);
    assert_eq!(index_byte_offset(37), 74);
}
