//! GLES2 shader programs: which sources and vertex components each engine
//! program uses, the attribute and sampler bindings made before and after
//! linking, and the compiled program with its uniform locations.

use vstd::prelude::*;
use crate::vertex::VertexComponents;
use vstd::string::StringExecFns;

verus! {

/// The engine's shader programs.
#[derive(Clone, Copy, Debug, PartialEq, Eq, Structural, Hash)]
pub enum ShaderProgram {
    TexturedNoLight,
    TexturedLightmap,
    GradientY,
    TexturedDynamicLit,
    TerrainSplat,
    GrassWind,
    Pal3Actor,
    Pal3Geom,
    Pal3Prop,
}

/// What builds a program: its name, the file names of its GLSL ES vertex
/// and fragment sources, and the vertex components it consumes.
pub struct ShaderProgramData {
    pub name: &'static str,
    pub vertex_source: &'static str,
    pub fragment_source: &'static str,
    pub components: VertexComponents,
}

pub open spec fn components_of(position: bool, normal: bool, texcoord: bool, texcoord2: bool) -> VertexComponents {
    VertexComponents { position, normal, texcoord, texcoord2 }
}

/// Position and texcoord.
pub open spec fn unlit_components() -> VertexComponents {
    components_of(true, false, true, false)
}

/// Position and both texcoord sets.
pub open spec fn two_uv_components() -> VertexComponents {
    components_of(true, false, true, true)
}

/// Position, normal and texcoord.
pub open spec fn lit_components() -> VertexComponents {
    components_of(true, true, true, false)
}

/// The data of each program. All programs have GLES2 implementations; the lit
/// PAL3 programs, TexturedDynamicLit and TerrainSplat share the per-vertex
/// Gouraud pair.
pub open spec fn program_data(p: ShaderProgram) -> (Seq<char>, Seq<char>, Seq<char>, VertexComponents) {
    match p {
        ShaderProgram::TexturedNoLight => (
            "TexturedNoLight"@,
            "simple_triangle.vert"@,
            "simple_triangle.frag"@,
            unlit_components(),
        ),
        ShaderProgram::TexturedLightmap => (
            "TexturedLightmap"@,
            "lightmap_texture.vert"@,
            "lightmap_texture.frag"@,
            two_uv_components(),
        ),
        ShaderProgram::GradientY => ("GradientY"@, "gradient_y.vert"@, "gradient_y.frag"@, unlit_components()),
        ShaderProgram::TexturedDynamicLit => (
            "TexturedDynamicLit"@,
            "pal3_lit_common.vert"@,
            "pal3_lit_common.frag"@,
            lit_components(),
        ),
        ShaderProgram::TerrainSplat => (
            "TerrainSplat"@,
            "pal3_lit_common.vert"@,
            "pal3_lit_common.frag"@,
            lit_components(),
        ),
        ShaderProgram::GrassWind => ("GrassWind"@, "grass.vert"@, "grass.frag"@, two_uv_components()),
        ShaderProgram::Pal3Actor => (
            "Pal3Actor"@,
            "pal3_lit_common.vert"@,
            "pal3_lit_common.frag"@,
            lit_components(),
        ),
        ShaderProgram::Pal3Geom => (
            "Pal3Geom"@,
            "pal3_lit_common.vert"@,
            "pal3_lit_common.frag"@,
            lit_components(),
        ),
        ShaderProgram::Pal3Prop => (
            "Pal3Prop"@,
            "pal3_lit_common.vert"@,
            "pal3_lit_common.frag"@,
            lit_components(),
        ),
    }
}

pub open spec fn data_view(d: ShaderProgramData) -> (Seq<char>, Seq<char>, Seq<char>, VertexComponents) {
    (d.name@, d.vertex_source@, d.fragment_source@, d.components)
}

fn program_components(position: bool, normal: bool, texcoord: bool, texcoord2: bool) -> (r: VertexComponents)
    ensures
        r == components_of(position, normal, texcoord, texcoord2),
{
    VertexComponents { position, normal, texcoord, texcoord2 }
}

pub fn get_shader_program_data(shader: ShaderProgram) -> (r: ShaderProgramData)
    ensures
        data_view(r) == program_data(shader),
{
    match shader {
        ShaderProgram::TexturedNoLight => ShaderProgramData {
            name: "TexturedNoLight",
            vertex_source: "simple_triangle.vert",
            fragment_source: "simple_triangle.frag",
            components: program_components(true, false, true, false),
        },
        ShaderProgram::TexturedLightmap => ShaderProgramData {
            name: "TexturedLightmap",
            vertex_source: "lightmap_texture.vert",
            fragment_source: "lightmap_texture.frag",
            components: program_components(true, false, true, true),
        },
        ShaderProgram::GradientY => ShaderProgramData {
            name: "GradientY",
            vertex_source: "gradient_y.vert",
            fragment_source: "gradient_y.frag",
            components: program_components(true, false, true, false),
        },
        ShaderProgram::TexturedDynamicLit => ShaderProgramData {
            name: "TexturedDynamicLit",
            vertex_source: "pal3_lit_common.vert",
            fragment_source: "pal3_lit_common.frag",
            components: program_components(true, true, true, false),
        },
        ShaderProgram::TerrainSplat => ShaderProgramData {
            name: "TerrainSplat",
            vertex_source: "pal3_lit_common.vert",
            fragment_source: "pal3_lit_common.frag",
            components: program_components(true, true, true, false),
        },
        ShaderProgram::GrassWind => ShaderProgramData {
            name: "GrassWind",
            vertex_source: "grass.vert",
            fragment_source: "grass.frag",
            components: program_components(true, false, true, true),
        },
        ShaderProgram::Pal3Actor => ShaderProgramData {
            name: "Pal3Actor",
            vertex_source: "pal3_lit_common.vert",
            fragment_source: "pal3_lit_common.frag",
            components: program_components(true, true, true, false),
        },
        ShaderProgram::Pal3Geom => ShaderProgramData {
            name: "Pal3Geom",
            vertex_source: "pal3_lit_common.vert",
            fragment_source: "pal3_lit_common.frag",
            components: program_components(true, true, true, false),
        },
        ShaderProgram::Pal3Prop => ShaderProgramData {
            name: "Pal3Prop",
            vertex_source: "pal3_lit_common.vert",
            fragment_source: "pal3_lit_common.frag",
            components: program_components(true, true, true, false),
        },
    }
}

/// Attribute locations bound before linking. The draw loop feeds position to
/// 0, texcoord to 1, texcoord2 to 2 and normal to 3; the last two are bound
/// only for programs that consume them.
pub open spec fn attribute_locations(cs: VertexComponents) -> Seq<(u32, Seq<char>)> {
    seq![(0u32, "position"@), (1u32, "texcoord"@)] + (if cs.texcoord2 {
        seq![(2u32, "texcoord2"@)]
    } else {
        Seq::empty()
    }) + (if cs.normal {
        seq![(3u32, "normal"@)]
    } else {
        Seq::empty()
    })
}

/// Sampler uniforms and their texture units: `texSampler` reads unit 0, and
/// `texSampler2` reads unit 1 for programs with a second texcoord set.
pub open spec fn sampler_units(cs: VertexComponents) -> Seq<(Seq<char>, i32)> {
    seq![("texSampler"@, 0i32)] + (if cs.texcoord2 {
        seq![("texSampler2"@, 1i32)]
    } else {
        Seq::empty()
    })
}

pub open spec fn bindings_view(v: Seq<(u32, &'static str)>) -> Seq<(u32, Seq<char>)> {
    v.map_values(|e: (u32, &'static str)| (e.0, e.1@))
}

pub open spec fn samplers_view(v: Seq<(&'static str, i32)>) -> Seq<(Seq<char>, i32)> {
    v.map_values(|e: (&'static str, i32)| (e.0@, e.1))
}

pub fn attribute_bindings(components: VertexComponents) -> (r: Vec<(u32, &'static str)>)
    ensures
        bindings_view(r@) == attribute_locations(components),
{
    let mut r: Vec<(u32, &'static str)> = Vec::new();
    r.push((0, "position"));
    r.push((1, "texcoord"));
    if components.texcoord2 {
        r.push((2, "texcoord2"));
    }
    if components.normal {
        r.push((3, "normal"));
    }
    assert(bindings_view(r@) =~= attribute_locations(components));
    r
}

pub fn sampler_bindings(components: VertexComponents) -> (r: Vec<(&'static str, i32)>)
    ensures
        samplers_view(r@) == sampler_units(components),
{
    let mut r: Vec<(&'static str, i32)> = Vec::new();
    r.push(("texSampler", 0));
    if components.texcoord2 {
        r.push(("texSampler2", 1));
    }
    assert(samplers_view(r@) =~= sampler_units(components));
    r
}

/// Actors keep PAL3's high material ambient (the "actor ambient floor");
/// scenery uses the scene ambient as it is.
pub open spec fn has_actor_ambient_floor(p: ShaderProgram) -> bool {
    p == ShaderProgram::Pal3Actor || p == ShaderProgram::TexturedDynamicLit
}

pub fn uses_actor_ambient_floor(shader: ShaderProgram) -> (r: bool)
    ensures
        r == has_actor_ambient_floor(shader),
{
    match shader {
        ShaderProgram::Pal3Actor | ShaderProgram::TexturedDynamicLit => true,
        _ => false,
    }
}

/// Uniform locations of a linked program; -1 where the program lacks the
/// uniform (uploads to -1 are defined no-ops in GLES2).
#[derive(Clone, Copy, Debug, PartialEq, Eq, Structural)]
pub struct UniformLocations {
    pub model_matrix: i32,
    pub view_matrix: i32,
    pub projection_matrix: i32,
    pub ambient_light: i32,
    pub light_pos: i32,
    pub light_color: i32,
    pub fog_color: i32,
    pub fog_params: i32,
    pub tint: i32,
    pub material_misc: i32,
    pub uv_xform: i32,
    pub time_sec: i32,
}

/// The GLSL names of the uniforms whose locations a shader keeps, in the
/// order of the fields of `UniformLocations`.
pub open spec fn uniform_name_table() -> Seq<Seq<char>> {
    seq![
        "modelMatrix"@,
        "viewMatrix"@,
        "projectionMatrix"@,
        "ambientLight"@,
        "lightPos"@,
        "lightColor"@,
        "fogColor"@,
        "fogParams"@,
        "tint"@,
        "materialMisc"@,
        "uvXform"@,
        "timeSec"@,
    ]
}

pub open spec fn names_view(v: Seq<&'static str>) -> Seq<Seq<char>> {
    v.map_values(|n: &'static str| n@)
}

/// The uniform names to look up, in field order.
pub fn uniform_names() -> (r: Vec<&'static str>)
    ensures
        names_view(r@) == uniform_name_table(),
{
    let r = vec![
        "modelMatrix",
        "viewMatrix",
        "projectionMatrix",
        "ambientLight",
        "lightPos",
        "lightColor",
        "fogColor",
        "fogParams",
        "tint",
        "materialMisc",
        "uvXform",
        "timeSec",
    ];
    assert(names_view(r@) =~= uniform_name_table());
    r
}

/// The locations read in `uniform_name_table` order, one per field.
pub open spec fn locations_from(l: Seq<i32>) -> UniformLocations {
    UniformLocations {
        model_matrix: l[0],
        view_matrix: l[1],
        projection_matrix: l[2],
        ambient_light: l[3],
        light_pos: l[4],
        light_color: l[5],
        fog_color: l[6],
        fog_params: l[7],
        tint: l[8],
        material_misc: l[9],
        uv_xform: l[10],
        time_sec: l[11],
    }
}

impl UniformLocations {
    /// The locations looked up for the names of `uniform_names()`, in that order.
    pub fn from_lookups(locations: &[i32]) -> (r: Self)
        requires
            locations@.len() == 12,
        ensures
            r == locations_from(locations@),
    {
        UniformLocations {
            model_matrix: locations[0],
            view_matrix: locations[1],
            projection_matrix: locations[2],
            ambient_light: locations[3],
            light_pos: locations[4],
            light_color: locations[5],
            fog_color: locations[6],
            fog_params: locations[7],
            tint: locations[8],
            material_misc: locations[9],
            uv_xform: locations[10],
            time_sec: locations[11],
        }
    }
}

/// The float defaults a program gets before its first draw; their values go
/// with the GL calls.
#[derive(Clone, Copy, Debug, PartialEq, Eq, Structural)]
pub enum UniformDefault {
    /// PAL3's high material ambient, kept by actors.
    ActorAmbientFloor,
    /// No floor: the scene ambient as it is.
    SceneAmbientFloor,
    /// Neutral tint.
    NeutralTint,
    /// Identity UV transform.
    IdentityUvXform,
    /// Default alpha reference and intensity.
    DefaultMaterialMisc,
}

/// One step of building a program.
#[derive(Clone, Copy, Debug, PartialEq, Eq)]
pub enum GlStep {
    /// Create the vertex shader, fragment shader and program objects.
    CreateObjects,
    /// Hand the vertex source to its shader and compile it.
    CompileVertex,
    /// Read the vertex compile status; a failure ends the build.
    CheckVertex,
    CompileFragment,
    CheckFragment,
    /// Attach both shaders to the program.
    AttachShaders,
    /// Bind an attribute name to a location (before linking).
    BindAttrib { location: u32, name: &'static str },
    Link,
    /// Read the link status; a failure ends the build.
    CheckLink,
    /// Make the program current (sampler and default uniforms are program state).
    UseProgram,
    /// Point a sampler uniform at a texture unit.
    SetSampler { name: &'static str, unit: i32 },
    /// Make no program current.
    UseNone,
    /// Upload a float default to the named uniform.
    SetDefault { name: &'static str, value: UniformDefault },
}

/// Attribute bindings as steps: see `attribute_locations`.
pub open spec fn bind_steps(cs: VertexComponents) -> Seq<GlStep> {
    seq![GlStep::BindAttrib { location: 0, name: "position" }, GlStep::BindAttrib { location: 1, name: "texcoord" }]
        + (if cs.texcoord2 {
        seq![GlStep::BindAttrib { location: 2, name: "texcoord2" }]
    } else {
        Seq::empty()
    }) + (if cs.normal {
        seq![GlStep::BindAttrib { location: 3, name: "normal" }]
    } else {
        Seq::empty()
    })
}

/// Sampler settings as steps: see `sampler_units`.
pub open spec fn sampler_steps(cs: VertexComponents) -> Seq<GlStep> {
    seq![GlStep::SetSampler { name: "texSampler", unit: 0 }] + (if cs.texcoord2 {
        seq![GlStep::SetSampler { name: "texSampler2", unit: 1 }]
    } else {
        Seq::empty()
    })
}

pub open spec fn ambient_default(p: ShaderProgram) -> UniformDefault {
    if has_actor_ambient_floor(p) {
        UniformDefault::ActorAmbientFloor
    } else {
        UniformDefault::SceneAmbientFloor
    }
}

/// The steps that build program `p`, in order: both stages compiled and
/// checked (vertex first), attributes bound before linking, the link
/// checked, samplers set with the program current, the program unbound, then
/// the float defaults set with the program current and the program unbound.
pub open spec fn build_steps(p: ShaderProgram) -> Seq<GlStep> {
    let cs = program_data(p).3;
    seq![
        GlStep::CreateObjects,
        GlStep::CompileVertex,
        GlStep::CheckVertex,
        GlStep::CompileFragment,
        GlStep::CheckFragment,
        GlStep::AttachShaders,
    ] + bind_steps(cs) + seq![GlStep::Link, GlStep::CheckLink, GlStep::UseProgram] + sampler_steps(cs) + seq![
        GlStep::UseNone,
        GlStep::UseProgram,
        GlStep::SetDefault { name: "ambientFloor", value: ambient_default(p) },
        GlStep::SetDefault { name: "tint", value: UniformDefault::NeutralTint },
        GlStep::SetDefault { name: "uvXform", value: UniformDefault::IdentityUvXform },
        GlStep::SetDefault { name: "materialMisc", value: UniformDefault::DefaultMaterialMisc },
        GlStep::UseNone,
    ]
}

/// The stage a build fails at.
#[derive(Clone, Copy, Debug, PartialEq, Eq, Structural)]
pub enum BuildFailure {
    Vertex,
    Fragment,
    Link,
}

/// The failure a step reports when it does not succeed: only the checks can fail.
pub open spec fn failure_of(step: GlStep) -> Option<BuildFailure> {
    match step {
        GlStep::CheckVertex => Some(BuildFailure::Vertex),
        GlStep::CheckFragment => Some(BuildFailure::Fragment),
        GlStep::CheckLink => Some(BuildFailure::Link),
        _ => None,
    }
}

fn step_failure(step: GlStep) -> (r: Option<BuildFailure>)
    ensures
        r == failure_of(step),
{
    match step {
        GlStep::CheckVertex => Some(BuildFailure::Vertex),
        GlStep::CheckFragment => Some(BuildFailure::Fragment),
        GlStep::CheckLink => Some(BuildFailure::Link),
        _ => None,
    }
}

/// Where a program build stands: the program, its steps, how many are done,
/// and the failure that ended it, if one did.
pub struct BuildView {
    pub shader: ShaderProgram,
    pub steps: Seq<GlStep>,
    pub done: nat,
    pub failure: Option<BuildFailure>,
}

/// The next step to perform: none once a check has failed or every step is done.
pub open spec fn pending(v: BuildView) -> Option<GlStep> {
    if v.failure is None && v.done < v.steps.len() {
        Some(v.steps[v.done as int])
    } else {
        None
    }
}

/// The build after its pending step was performed with result `ok`.
pub open spec fn after_step(v: BuildView, ok: bool) -> BuildView {
    BuildView {
        done: v.done + 1,
        failure: if !ok { failure_of(v.steps[v.done as int]) } else { None },
        ..v
    }
}

/// How a build ended: with the failure that stopped it, or with success once
/// every step is done; `None` while it is under way.
pub open spec fn outcome_of(v: BuildView) -> Option<Result<(), BuildFailure>> {
    match v.failure {
        Some(f) => Some(Err(f)),
        None => if v.done == v.steps.len() {
            Some(Ok(()))
        } else {
            None
        },
    }
}

/// The build of one program, stepped by whoever performs the GL calls.
pub struct ShaderBuild {
    shader: ShaderProgram,
    steps: Vec<GlStep>,
    done: usize,
    failure: Option<BuildFailure>,
}

impl ShaderBuild {
    /// A build always follows its program's plan and never runs past its end.
    #[verifier::type_invariant]
    spec fn plan_invariant(self) -> bool {
        &&& self.steps@ == build_steps(self.shader)
        &&& self.done <= self.steps@.len()
    }
}

/// A build that follows `build_steps` of its program and has not run past them.
pub open spec fn follows_plan(v: BuildView) -> bool {
    &&& v.steps == build_steps(v.shader)
    &&& v.done <= v.steps.len()
}

impl View for ShaderBuild {
    type V = BuildView;

    closed spec fn view(&self) -> BuildView {
        BuildView { shader: self.shader, steps: self.steps@, done: self.done as nat, failure: self.failure }
    }
}

/// The steps of `shader`'s build as a vector.
pub fn shader_build_plan(shader: ShaderProgram) -> (r: Vec<GlStep>)
    ensures
        r@ == build_steps(shader),
{
    let data = get_shader_program_data(shader);
    let cs = data.components;
    let mut r: Vec<GlStep> = Vec::new();
    r.push(GlStep::CreateObjects);
    r.push(GlStep::CompileVertex);
    r.push(GlStep::CheckVertex);
    r.push(GlStep::CompileFragment);
    r.push(GlStep::CheckFragment);
    r.push(GlStep::AttachShaders);
    r.push(GlStep::BindAttrib { location: 0, name: "position" });
    r.push(GlStep::BindAttrib { location: 1, name: "texcoord" });
    if cs.texcoord2 {
        r.push(GlStep::BindAttrib { location: 2, name: "texcoord2" });
    }
    if cs.normal {
        r.push(GlStep::BindAttrib { location: 3, name: "normal" });
    }
    r.push(GlStep::Link);
    r.push(GlStep::CheckLink);
    r.push(GlStep::UseProgram);
    r.push(GlStep::SetSampler { name: "texSampler", unit: 0 });
    if cs.texcoord2 {
        r.push(GlStep::SetSampler { name: "texSampler2", unit: 1 });
    }
    r.push(GlStep::UseNone);
    r.push(GlStep::UseProgram);
    let floor = if uses_actor_ambient_floor(shader) {
        UniformDefault::ActorAmbientFloor
    } else {
        UniformDefault::SceneAmbientFloor
    };
    r.push(GlStep::SetDefault { name: "ambientFloor", value: floor });
    r.push(GlStep::SetDefault { name: "tint", value: UniformDefault::NeutralTint });
    r.push(GlStep::SetDefault { name: "uvXform", value: UniformDefault::IdentityUvXform });
    r.push(GlStep::SetDefault { name: "materialMisc", value: UniformDefault::DefaultMaterialMisc });
    r.push(GlStep::UseNone);
    assert(r@ =~= build_steps(shader));
    r
}

impl ShaderBuild {
    /// A build of `shader` with no step done.
    pub fn new(shader: ShaderProgram) -> (r: Self)
        ensures
            r@ == (BuildView { shader, steps: build_steps(shader), done: 0, failure: None }),
    {
        ShaderBuild { shader, steps: shader_build_plan(shader), done: 0, failure: None }
    }

    pub fn shader(&self) -> (r: ShaderProgram)
        ensures
            r == self@.shader,
            follows_plan(self@),
    {
        proof {
            use_type_invariant(self);
        }
        self.shader
    }

    /// The step to perform next, if the build goes on.
    pub fn next_step(&self) -> (r: Option<GlStep>)
        ensures
            r == pending(self@),
            follows_plan(self@),
    {
        proof {
            use_type_invariant(self);
        }
        if self.failure.is_none() && self.done < self.steps.len() {
            Some(self.steps[self.done])
        } else {
            None
        }
    }

    /// Records that the pending step was performed and whether it succeeded
    /// (only the compile and link checks can fail).
    pub fn step_done(&mut self, ok: bool)
        requires
            pending(old(self)@) is Some,
        ensures
            final(self)@ == after_step(old(self)@, ok),
            follows_plan(final(self)@),
    {
        proof {
            use_type_invariant(&*self);
        }
        let n = self.steps.len();
        assert(self.done < n);
        let failure = if !ok { step_failure(self.steps[self.done]) } else { None };
        self.failure = failure;
        self.done = self.done + 1;
    }

    /// How the build ended, once it has.
    pub fn outcome(&self) -> (r: Option<Result<(), BuildFailure>>)
        ensures
            r == outcome_of(self@),
            follows_plan(self@),
    {
        proof {
            use_type_invariant(self);
        }
        match self.failure {
            Some(f) => Some(Err(f)),
            None => if self.done == self.steps.len() {
                Some(Ok(()))
            } else {
                None
            },
        }
    }
}

/// The error text of a failed build of the program named `name`, with the
/// driver's info log `log`.
pub open spec fn failure_message(name: Seq<char>, failure: BuildFailure, log: Seq<char>) -> Seq<char> {
    match failure {
        BuildFailure::Vertex => name + " vertex shader failed to compile: "@ + log,
        BuildFailure::Fragment => name + " fragment shader failed to compile: "@ + log,
        BuildFailure::Link => name + " program failed to link: "@ + log,
    }
}

pub fn build_error_message(shader: ShaderProgram, failure: BuildFailure, log: &str) -> (r: String)
    ensures
        r@ == failure_message(program_data(shader).0, failure, log@),
{
    let data = get_shader_program_data(shader);
    let mut m = String::from_str(data.name);
    match failure {
        BuildFailure::Vertex => m.append(" vertex shader failed to compile: "),
        BuildFailure::Fragment => m.append(" fragment shader failed to compile: "),
        BuildFailure::Link => m.append(" program failed to link: "),
    }
    m.append(log);
    m
}

/// A linked GLES2 program for one engine shader program.
pub struct SwitchGLShader {
    kind: ShaderProgram,
    name: String,
    vertex_shader: u32,
    fragment_shader: u32,
    program: u32,
    uniforms: UniformLocations,
}

/// What a shader is: the engine program it is, its name, its vertex shader,
/// fragment shader and program objects, and its uniform locations.
pub struct ShaderView {
    pub kind: ShaderProgram,
    pub name: Seq<char>,
    pub vertex_shader: u32,
    pub fragment_shader: u32,
    pub program: u32,
    pub uniforms: UniformLocations,
}

impl View for SwitchGLShader {
    type V = ShaderView;

    closed spec fn view(&self) -> ShaderView {
        ShaderView {
            kind: self.kind,
            name: self.name@,
            vertex_shader: self.vertex_shader,
            fragment_shader: self.fragment_shader,
            program: self.program,
            uniforms: self.uniforms,
        }
    }
}

/// The shader a finished build of `shader` yields from its GL objects and the
/// uniform locations looked up by name (in `uniform_name_table` order).
pub open spec fn built_shader(shader: ShaderProgram, vertex_shader: u32, fragment_shader: u32, program: u32, locations: Seq<i32>) -> ShaderView {
    ShaderView {
        kind: shader,
        name: program_data(shader).0,
        vertex_shader,
        fragment_shader,
        program,
        uniforms: locations_from(locations),
    }
}

impl SwitchGLShader {
    /// The result of a finished build: on success the shader, made of the
    /// build's GL objects and the uniform locations looked up for the names of
    /// `uniform_names()`, in order; on failure the error naming the program,
    /// the failed stage and the driver's info log `log`.
    pub fn new(
        build: &ShaderBuild,
        vertex_shader: u32,
        fragment_shader: u32,
        program: u32,
        locations: &[i32],
        log: &str,
    ) -> (r: Result<Self, String>)
        requires
            outcome_of(build@) is Some,
            locations@.len() == 12,
        ensures
            follows_plan(build@),
            outcome_of(build@) == Some(Ok::<(), BuildFailure>(())) <==> r is Ok,
            r matches Ok(s) ==> s@ == built_shader(build@.shader, vertex_shader, fragment_shader, program, locations@),
            r matches Err(e) ==> outcome_of(build@) matches Some(Err(f)) && e@ == failure_message(
                program_data(build@.shader).0,
                f,
                log@,
            ),
    {
        let shader = build.shader();
        match build.outcome() {
            Some(Err(f)) => Err(build_error_message(shader, f, log)),
            _ => {
                let data = get_shader_program_data(shader);
                Ok(SwitchGLShader {
                    kind: shader,
                    name: data.name.to_owned(),
                    vertex_shader,
                    fragment_shader,
                    program,
                    uniforms: UniformLocations::from_lookups(locations),
                })
            },
        }
    }

    /// The engine program this shader is.
    pub fn program_kind(&self) -> (r: ShaderProgram)
        ensures
            r == self@.kind,
    {
        self.kind
    }

    pub fn name(&self) -> (r: &str)
        ensures
            r@ == self@.name,
    {
        self.name.as_str()
    }

    /// The vertex shader, fragment shader and program objects, for deletion.
    pub fn gl_objects(&self) -> (r: (u32, u32, u32))
        ensures
            r == (self@.vertex_shader, self@.fragment_shader, self@.program),
    {
        (self.vertex_shader, self.fragment_shader, self.program)
    }

    pub fn program(&self) -> (r: u32)
        ensures
            r == self@.program,
    {
        self.program
    }

    pub fn uniform_model_matrix(&self) -> (r: i32)
        ensures
            r == self@.uniforms.model_matrix,
    {
        self.uniforms.model_matrix
    }

    pub fn uniform_view_matrix(&self) -> (r: i32)
        ensures
            r == self@.uniforms.view_matrix,
    {
        self.uniforms.view_matrix
    }

    pub fn uniform_projection_matrix(&self) -> (r: i32)
        ensures
            r == self@.uniforms.projection_matrix,
    {
        self.uniforms.projection_matrix
    }

    pub fn uniform_ambient_light(&self) -> (r: i32)
        ensures
            r == self@.uniforms.ambient_light,
    {
        self.uniforms.ambient_light
    }

    pub fn uniform_light_pos(&self) -> (r: i32)
        ensures
            r == self@.uniforms.light_pos,
    {
        self.uniforms.light_pos
    }

    pub fn uniform_light_color(&self) -> (r: i32)
        ensures
            r == self@.uniforms.light_color,
    {
        self.uniforms.light_color
    }

    pub fn uniform_fog_color(&self) -> (r: i32)
        ensures
            r == self@.uniforms.fog_color,
    {
        self.uniforms.fog_color
    }

    pub fn uniform_fog_params(&self) -> (r: i32)
        ensures
            r == self@.uniforms.fog_params,
    {
        self.uniforms.fog_params
    }

    pub fn uniform_tint(&self) -> (r: i32)
        ensures
            r == self@.uniforms.tint,
    {
        self.uniforms.tint
    }

    pub fn uniform_material_misc(&self) -> (r: i32)
        ensures
            r == self@.uniforms.material_misc,
    {
        self.uniforms.material_misc
    }

    pub fn uniform_uv_xform(&self) -> (r: i32)
        ensures
            r == self@.uniforms.uv_xform,
    {
        self.uniforms.uv_xform
    }

    pub fn uniform_time_sec(&self) -> (r: i32)
        ensures
            r == self@.uniforms.time_sec,
    {
        self.uniforms.time_sec
    }
}


/// Bytes to allocate for a shader or program info log of the reported
/// length (a negative report allocates nothing).
pub fn info_log_capacity(log_length: i32) -> (r: usize)
    ensures
        r == (if log_length > 0 { log_length as int } else { 0 }),
{
    if log_length > 0 {
        log_length as usize
    } else {
        0
    }
}


/// The build after `k` more steps that all succeed.
pub open spec fn run_ok(v: BuildView, k: nat) -> BuildView
    decreases k,
{
    if k == 0 {
        v
    } else {
        after_step(run_ok(v, (k - 1) as nat), true)
    }
}

proof fn lemma_run_ok(v: BuildView, k: nat)
    ensures
        run_ok(v, k).shader == v.shader,
        run_ok(v, k).steps == v.steps,
        run_ok(v, k).done == v.done + k,
        k > 0 ==> run_ok(v, k).failure is None,
        k == 0 ==> run_ok(v, k).failure == v.failure,
    decreases k,
{
    if k > 0 {
        lemma_run_ok(v, (k - 1) as nat);
    }
}

pub open spec fn initial_build(p: ShaderProgram) -> BuildView {
    BuildView { shader: p, steps: build_steps(p), done: 0, failure: None }
}

/// The plan's order: the vertex stage is compiled and checked before the
/// fragment stage is compiled; every attribute is bound before the link;
/// the link is checked and the program made current before the samplers are
/// set; the program is unbound after them and at the very end.
pub proof fn law_plan_order(p: ShaderProgram)
    ensures
        ({
            let s = build_steps(p);
            let nb = bind_steps(program_data(p).3).len() as int;
            let ns = sampler_steps(program_data(p).3).len() as int;
            &&& s[1] == GlStep::CompileVertex
            &&& s[2] == GlStep::CheckVertex
            &&& s[3] == GlStep::CompileFragment
            &&& s[4] == GlStep::CheckFragment
            &&& s[5] == GlStep::AttachShaders
            &&& (forall|i: int| 6 <= i < 6 + nb ==> (#[trigger] s[i]) is BindAttrib)
            &&& s[6 + nb] == GlStep::Link
            &&& s[7 + nb] == GlStep::CheckLink
            &&& s[8 + nb] == GlStep::UseProgram
            &&& (forall|i: int| 9 + nb <= i < 9 + nb + ns ==> (#[trigger] s[i]) is SetSampler)
            &&& s[9 + nb + ns] == GlStep::UseNone
            &&& s[s.len() - 1] == GlStep::UseNone
        }),
{
}

/// The attribute steps bind exactly `attribute_locations`, and the sampler
/// steps set exactly `sampler_units`.
pub proof fn law_plan_bindings(cs: VertexComponents)
    ensures
        bind_steps(cs).map_values(
            |st: GlStep|
                match st {
                    GlStep::BindAttrib { location, name } => (location, name@),
                    _ => (0u32, Seq::<char>::empty()),
                },
        ) == attribute_locations(cs),
        sampler_steps(cs).map_values(
            |st: GlStep|
                match st {
                    GlStep::SetSampler { name, unit } => (name@, unit),
                    _ => (Seq::<char>::empty(), 0i32),
                },
        ) == sampler_units(cs),
{
    assert(bind_steps(cs).map_values(
        |st: GlStep|
            match st {
                GlStep::BindAttrib { location, name } => (location, name@),
                _ => (0u32, Seq::<char>::empty()),
            },
    ) =~= attribute_locations(cs));
    assert(sampler_steps(cs).map_values(
        |st: GlStep|
            match st {
                GlStep::SetSampler { name, unit } => (name@, unit),
                _ => (Seq::<char>::empty(), 0i32),
            },
    ) =~= sampler_units(cs));
}

/// A rejected vertex stage ends the build there: it fails with the vertex
/// stage, and the fragment stage is never compiled.
pub proof fn law_vertex_failure_stops(p: ShaderProgram)
    ensures
        ({
            let v = after_step(run_ok(initial_build(p), 2), false);
            &&& build_steps(p)[2] == GlStep::CheckVertex
            &&& pending(v) is None
            &&& outcome_of(v) == Some(Err::<(), BuildFailure>(BuildFailure::Vertex))
        }),
{
    lemma_run_ok(initial_build(p), 2);
}

/// A rejected fragment stage (after the vertex stage passed) fails the build
/// with the fragment stage, before anything is attached or linked.
pub proof fn law_fragment_failure_stops(p: ShaderProgram)
    ensures
        ({
            let v = after_step(run_ok(initial_build(p), 4), false);
            &&& build_steps(p)[4] == GlStep::CheckFragment
            &&& pending(v) is None
            &&& outcome_of(v) == Some(Err::<(), BuildFailure>(BuildFailure::Fragment))
        }),
{
    lemma_run_ok(initial_build(p), 4);
}

/// A rejected link (after both stages compiled) fails the build with the
/// link, before any sampler is set.
pub proof fn law_link_failure_stops(p: ShaderProgram)
    ensures
        ({
            let k = 7 + bind_steps(program_data(p).3).len();
            let v = after_step(run_ok(initial_build(p), k), false);
            &&& build_steps(p)[k as int] == GlStep::CheckLink
            &&& pending(v) is None
            &&& outcome_of(v) == Some(Err::<(), BuildFailure>(BuildFailure::Link))
        }),
{
    let k = 7 + bind_steps(program_data(p).3).len();
    lemma_run_ok(initial_build(p), k);
}

/// A build succeeds exactly when every step has been done with no check
/// failing; before that it is still under way.
pub proof fn law_success_after_every_step(p: ShaderProgram, k: nat)
    requires
        0 < k <= build_steps(p).len(),
    ensures
        outcome_of(run_ok(initial_build(p), k)) == (if k == build_steps(p).len() {
            Some(Ok::<(), BuildFailure>(()))
        } else {
            None
        }),
{
    lemma_run_ok(initial_build(p), k);
}

/// Exactly the actor programs (PAL3 actors and the dynamically lit textured
/// program) keep the actor ambient floor; every other program (props,
/// geometry, terrain, grass, sky, lightmapped and unlit scenery) gets the
/// scene ambient default. The build plan of every program sets that default,
/// under the name `ambientFloor`, with the program current.
pub proof fn law_actor_ambient_floor(p: ShaderProgram)
    ensures
        has_actor_ambient_floor(p) <==> (p == ShaderProgram::Pal3Actor || p == ShaderProgram::TexturedDynamicLit),
        ({
            let s = build_steps(p);
            let expected = if p == ShaderProgram::Pal3Actor || p == ShaderProgram::TexturedDynamicLit {
                UniformDefault::ActorAmbientFloor
            } else {
                UniformDefault::SceneAmbientFloor
            };
            &&& s[s.len() - 6] == GlStep::UseProgram
            &&& s[s.len() - 5] == GlStep::SetDefault { name: "ambientFloor", value: expected }
            &&& forall|i: int|
                0 <= i < s.len() && (#[trigger] s[i]) is SetDefault && s[i]->value is ActorAmbientFloor
                    ==> p == ShaderProgram::Pal3Actor || p == ShaderProgram::TexturedDynamicLit
        }),
{
}

/// Each program is built from its own GLSL sources: the gradient sky from
/// `gradient_y`, the unlit textured program from `simple_triangle`, the
/// lightmapped one from `lightmap_texture`, grass from `grass`, and every lit
/// program (dynamically lit, terrain, PAL3 actors, geometry and props) from
/// the shared per-vertex `pal3_lit_common` pair; vertex and fragment source
/// always come from the same pair, and the program's name is its own. Every
/// program reads positions and texcoords; exactly the lit programs read
/// normals, and exactly the lightmapped and grass programs a second UV set.
pub proof fn law_program_sources(p: ShaderProgram)
    ensures
        ({
            let d = program_data(p);
            &&& (d.1 == "gradient_y.vert"@ && d.2 == "gradient_y.frag"@) <==> p == ShaderProgram::GradientY
            &&& (d.1 == "simple_triangle.vert"@ && d.2 == "simple_triangle.frag"@) <==> p
                == ShaderProgram::TexturedNoLight
            &&& (d.1 == "lightmap_texture.vert"@ && d.2 == "lightmap_texture.frag"@) <==> p
                == ShaderProgram::TexturedLightmap
            &&& (d.1 == "grass.vert"@ && d.2 == "grass.frag"@) <==> p == ShaderProgram::GrassWind
            &&& (d.1 == "pal3_lit_common.vert"@ && d.2 == "pal3_lit_common.frag"@) <==> (p
                == ShaderProgram::TexturedDynamicLit || p == ShaderProgram::TerrainSplat || p
                == ShaderProgram::Pal3Actor || p == ShaderProgram::Pal3Geom || p == ShaderProgram::Pal3Prop)
            &&& d.3.position && d.3.texcoord
            &&& d.3.normal <==> (d.1 == "pal3_lit_common.vert"@)
            &&& d.3.texcoord2 <==> (p == ShaderProgram::TexturedLightmap || p == ShaderProgram::GrassWind)
            &&& d.0 == match p {
                ShaderProgram::TexturedNoLight => "TexturedNoLight"@,
                ShaderProgram::TexturedLightmap => "TexturedLightmap"@,
                ShaderProgram::GradientY => "GradientY"@,
                ShaderProgram::TexturedDynamicLit => "TexturedDynamicLit"@,
                ShaderProgram::TerrainSplat => "TerrainSplat"@,
                ShaderProgram::GrassWind => "GrassWind"@,
                ShaderProgram::Pal3Actor => "Pal3Actor"@,
                ShaderProgram::Pal3Geom => "Pal3Geom"@,
                ShaderProgram::Pal3Prop => "Pal3Prop"@,
            }
        }),
{
    reveal_strlit("gradient_y.vert");
    reveal_strlit("simple_triangle.vert");
    reveal_strlit("lightmap_texture.vert");
    reveal_strlit("grass.vert");
    reveal_strlit("pal3_lit_common.vert");
    assert("gradient_y.vert"@.len() == 15);
    assert("simple_triangle.vert"@.len() == 20);
    assert("lightmap_texture.vert"@.len() == 21);
    assert("grass.vert"@.len() == 10);
    assert("pal3_lit_common.vert"@.len() == 20);
    assert("simple_triangle.vert"@[0] != "pal3_lit_common.vert"@[0]);
    assert("simple_triangle.vert"@ != "pal3_lit_common.vert"@);
}

} // verus!
