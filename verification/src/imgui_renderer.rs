//! The GLES2 imgui renderer's GL objects: program, projection uniform,
//! vertex and index buffers, and the font atlas texture it replaces on rebuild.

use vstd::prelude::*;

use crate::shader::BuildFailure;

verus! {

/// Bytes of one imgui `DrawVert`: position (2 floats), uv (2 floats), color (4 bytes).
pub const DRAW_VERT_STRIDE: i32 = 20;
/// Offsets of position, uv and color within a `DrawVert`.
pub const DRAW_VERT_POS_OFFSET: usize = 0;
pub const DRAW_VERT_UV_OFFSET: usize = 8;
pub const DRAW_VERT_COLOR_OFFSET: usize = 16;

/// Byte offset of index `idx_offset` in a buffer of `u16` indices.
pub fn index_byte_offset(idx_offset: usize) -> (r: usize)
    requires
        idx_offset * 2 <= usize::MAX,
    ensures
        r == idx_offset * 2,
{
    idx_offset * 2
}

/// The renderer with `texture` as its font atlas texture.
pub open spec fn font_installed(v: ImguiRendererView, texture: u32) -> ImguiRendererView {
    ImguiRendererView { font_texture: texture, ..v }
}

/// The texture handed back for deletion when `texture` replaces the font
/// atlas texture of `v`: the previous one, if there was one.
pub open spec fn font_replaced(v: ImguiRendererView, texture: u32) -> Option<u32> {
    if v.font_texture != 0 { Some(v.font_texture) } else { None }
}

pub struct SwitchGLImguiRenderer {
    program: u32,
    uniform_proj: i32,
    vbo: u32,
    ebo: u32,
    font_texture: u32,
}

pub struct ImguiRendererView {
    pub program: u32,
    pub uniform_proj: i32,
    pub vbo: u32,
    pub ebo: u32,
    pub font_texture: u32,
}

impl View for SwitchGLImguiRenderer {
    type V = ImguiRendererView;

    closed spec fn view(&self) -> ImguiRendererView {
        ImguiRendererView {
            program: self.program,
            uniform_proj: self.uniform_proj,
            vbo: self.vbo,
            ebo: self.ebo,
            font_texture: self.font_texture,
        }
    }
}

impl SwitchGLImguiRenderer {
    /// A renderer with its program and buffers and no font atlas yet.
    pub fn new(program: u32, uniform_proj: i32, vbo: u32, ebo: u32) -> (r: Self)
        ensures
            r@ == (ImguiRendererView { program, uniform_proj, vbo, ebo, font_texture: 0 }),
    {
        SwitchGLImguiRenderer { program, uniform_proj, vbo, ebo, font_texture: 0 }
    }

    pub fn program(&self) -> (r: u32)
        ensures
            r == self@.program,
    {
        self.program
    }

    pub fn uniform_proj(&self) -> (r: i32)
        ensures
            r == self@.uniform_proj,
    {
        self.uniform_proj
    }

    pub fn buffers(&self) -> (r: (u32, u32))
        ensures
            r == (self@.vbo, self@.ebo),
    {
        (self.vbo, self.ebo)
    }

    pub fn font_texture(&self) -> (r: u32)
        ensures
            r == self@.font_texture,
    {
        self.font_texture
    }

    /// Takes `texture` as the font atlas texture and returns the previous one,
    /// when there was one, to delete.
    pub fn replace_font_texture(&mut self, texture: u32) -> (r: Option<u32>)
        ensures
            final(self)@ == font_installed(old(self)@, texture),
            r == font_replaced(old(self)@, texture),
    {
        let previous = self.font_texture;
        self.font_texture = texture;
        if previous != 0 {
            Some(previous)
        } else {
            None
        }
    }
}


/// Rebuilding the font atlas neither leaks nor double-deletes a texture:
/// replacing with `a` and then with `b` hands back exactly `a` the second
/// time (when `a` is a texture), and leaves `b` installed.
pub proof fn law_font_texture_handed_back(v: ImguiRendererView, a: u32, b: u32)
    ensures
        font_replaced(font_installed(v, a), b) == (if a != 0 { Some(a) } else { None::<u32> }),
        font_installed(font_installed(v, a), b).font_texture == b,
{
}

/// One GL step of building the imgui program.
#[derive(Clone, Copy, Debug, PartialEq, Eq)]
pub enum ImguiBuildStep {
    /// Create the vertex shader, fragment shader and program objects.
    CreateObjects,
    /// Hand the vertex source to its shader and compile it.
    CompileVertex,
    /// Read the vertex compile status; a failure ends the build.
    CheckVertex,
    /// Attach the compiled vertex shader to the program.
    AttachVertex,
    CompileFragment,
    CheckFragment,
    AttachFragment,
    /// Bind an attribute name to a location (before linking).
    BindAttrib { location: u32, name: &'static str },
    Link,
    /// Read the link status; a failure ends the build.
    CheckLink,
    /// Flag both shaders for deletion (they live on with the program).
    DeleteShaders,
    /// Make the program current.
    UseProgram,
    /// Point a sampler uniform at a texture unit.
    SetSampler { name: &'static str, unit: i32 },
    /// Look up the location of the projection uniform.
    LookupProjection { name: &'static str },
    /// Make no program current.
    UseNone,
}

/// The steps that build the imgui program, in order: each stage compiled,
/// checked and attached (vertex first), the attributes bound before the
/// link, the link checked, the shaders flagged for deletion, then with the
/// program current the sampler set to unit 0 and the projection uniform
/// looked up, and the program unbound.
pub open spec fn imgui_build_steps() -> Seq<ImguiBuildStep> {
    seq![
        ImguiBuildStep::CreateObjects,
        ImguiBuildStep::CompileVertex,
        ImguiBuildStep::CheckVertex,
        ImguiBuildStep::AttachVertex,
        ImguiBuildStep::CompileFragment,
        ImguiBuildStep::CheckFragment,
        ImguiBuildStep::AttachFragment,
        ImguiBuildStep::BindAttrib { location: 0, name: "position" },
        ImguiBuildStep::BindAttrib { location: 1, name: "uv" },
        ImguiBuildStep::BindAttrib { location: 2, name: "color" },
        ImguiBuildStep::Link,
        ImguiBuildStep::CheckLink,
        ImguiBuildStep::DeleteShaders,
        ImguiBuildStep::UseProgram,
        ImguiBuildStep::SetSampler { name: "tex", unit: 0 },
        ImguiBuildStep::LookupProjection { name: "proj" },
        ImguiBuildStep::UseNone,
    ]
}

/// The steps of the imgui program's build as a vector.
pub fn imgui_build_plan() -> (r: Vec<ImguiBuildStep>)
    ensures
        r@ == imgui_build_steps(),
{
    let r = vec![
        ImguiBuildStep::CreateObjects,
        ImguiBuildStep::CompileVertex,
        ImguiBuildStep::CheckVertex,
        ImguiBuildStep::AttachVertex,
        ImguiBuildStep::CompileFragment,
        ImguiBuildStep::CheckFragment,
        ImguiBuildStep::AttachFragment,
        ImguiBuildStep::BindAttrib { location: 0, name: "position" },
        ImguiBuildStep::BindAttrib { location: 1, name: "uv" },
        ImguiBuildStep::BindAttrib { location: 2, name: "color" },
        ImguiBuildStep::Link,
        ImguiBuildStep::CheckLink,
        ImguiBuildStep::DeleteShaders,
        ImguiBuildStep::UseProgram,
        ImguiBuildStep::SetSampler { name: "tex", unit: 0 },
        ImguiBuildStep::LookupProjection { name: "proj" },
        ImguiBuildStep::UseNone,
    ];
    assert(r@ =~= imgui_build_steps());
    r
}

/// The failure a step reports when it does not succeed: only the checks can fail.
pub open spec fn imgui_failure_of(step: ImguiBuildStep) -> Option<BuildFailure> {
    match step {
        ImguiBuildStep::CheckVertex => Some(BuildFailure::Vertex),
        ImguiBuildStep::CheckFragment => Some(BuildFailure::Fragment),
        ImguiBuildStep::CheckLink => Some(BuildFailure::Link),
        _ => None,
    }
}

fn imgui_step_failure(step: ImguiBuildStep) -> (r: Option<BuildFailure>)
    ensures
        r == imgui_failure_of(step),
{
    match step {
        ImguiBuildStep::CheckVertex => Some(BuildFailure::Vertex),
        ImguiBuildStep::CheckFragment => Some(BuildFailure::Fragment),
        ImguiBuildStep::CheckLink => Some(BuildFailure::Link),
        _ => None,
    }
}

/// Where the imgui program's build stands: how many steps are done, and the
/// failure that ended it, if one did.
pub struct ImguiBuildView {
    pub done: nat,
    pub failure: Option<BuildFailure>,
}

/// The next step to perform: none once a check has failed or every step is done.
pub open spec fn imgui_pending(v: ImguiBuildView) -> Option<ImguiBuildStep> {
    if v.failure is None && v.done < imgui_build_steps().len() {
        Some(imgui_build_steps()[v.done as int])
    } else {
        None
    }
}

/// The build after its pending step was performed with result `ok`.
pub open spec fn imgui_after_step(v: ImguiBuildView, ok: bool) -> ImguiBuildView {
    ImguiBuildView {
        done: v.done + 1,
        failure: if !ok { imgui_failure_of(imgui_build_steps()[v.done as int]) } else { None },
    }
}

/// How the build ended: with the failure that stopped it, or with success
/// once every step is done; `None` while it is under way.
pub open spec fn imgui_outcome(v: ImguiBuildView) -> Option<Result<(), BuildFailure>> {
    match v.failure {
        Some(f) => Some(Err(f)),
        None => if v.done == imgui_build_steps().len() {
            Some(Ok(()))
        } else {
            None
        },
    }
}

/// The build of the imgui program, stepped by whoever performs the GL calls.
pub struct ImguiProgramBuild {
    steps: Vec<ImguiBuildStep>,
    done: usize,
    failure: Option<BuildFailure>,
}

impl ImguiProgramBuild {
    /// A build always follows the imgui plan and never runs past its end.
    #[verifier::type_invariant]
    spec fn plan_invariant(self) -> bool {
        &&& self.steps@ == imgui_build_steps()
        &&& self.done <= self.steps@.len()
    }
}

impl View for ImguiProgramBuild {
    type V = ImguiBuildView;

    closed spec fn view(&self) -> ImguiBuildView {
        ImguiBuildView { done: self.done as nat, failure: self.failure }
    }
}

impl ImguiProgramBuild {
    /// A build with no step done.
    pub fn new() -> (r: Self)
        ensures
            r@ == (ImguiBuildView { done: 0, failure: None }),
    {
        ImguiProgramBuild { steps: imgui_build_plan(), done: 0, failure: None }
    }

    /// The step to perform next, if the build goes on.
    pub fn next_step(&self) -> (r: Option<ImguiBuildStep>)
        ensures
            r == imgui_pending(self@),
    {
        proof {
            use_type_invariant(self);
        }
        if self.failure.is_none() && self.done < self.steps.len() {
            Some(self.steps[self.done])
        } else {
            None
        }
    }

    /// Records that the pending step was performed and whether it succeeded
    /// (only the compile and link checks can fail).
    pub fn step_done(&mut self, ok: bool)
        requires
            imgui_pending(old(self)@) is Some,
        ensures
            final(self)@ == imgui_after_step(old(self)@, ok),
    {
        proof {
            use_type_invariant(&*self);
        }
        let failure = if !ok { imgui_step_failure(self.steps[self.done]) } else { None };
        self.failure = failure;
        self.done = self.done + 1;
    }

    /// How the build ended, once it has.
    pub fn outcome(&self) -> (r: Option<Result<(), BuildFailure>>)
        ensures
            r == imgui_outcome(self@),
    {
        proof {
            use_type_invariant(self);
        }
        match self.failure {
            Some(f) => Some(Err(f)),
            None => if self.done == self.steps.len() {
                Some(Ok(()))
            } else {
                None
            },
        }
    }
}

/// The error text of a failed imgui program build, with the driver's info
/// log `log` of a failed stage (the link failure carries no log).
pub open spec fn imgui_failure_message(failure: BuildFailure, log: Seq<char>) -> Seq<char> {
    match failure {
        BuildFailure::Vertex => "imgui vertex shader failed to compile: "@ + log,
        BuildFailure::Fragment => "imgui fragment shader failed to compile: "@ + log,
        BuildFailure::Link => "imgui shader program failed to link"@,
    }
}

/// The result of a finished imgui program build: on success the program and
/// its projection uniform location, on failure the error naming the failed
/// stage.
pub fn imgui_program(build: &ImguiProgramBuild, program: u32, uniform_proj: i32, log: &str) -> (r: Result<
    (u32, i32),
    String,
>)
    requires
        imgui_outcome(build@) is Some,
    ensures
        imgui_outcome(build@) == Some(Ok::<(), BuildFailure>(())) <==> r is Ok,
        r matches Ok(p) ==> p == (program, uniform_proj),
        r matches Err(e) ==> imgui_outcome(build@) matches Some(Err(f)) && e@ == imgui_failure_message(f, log@),
{
    match build.outcome() {
        Some(Err(f)) => {
            let mut m = match f {
                BuildFailure::Vertex => String::from_str("imgui vertex shader failed to compile: "),
                BuildFailure::Fragment => String::from_str("imgui fragment shader failed to compile: "),
                BuildFailure::Link => String::from_str("imgui shader program failed to link"),
            };
            match f {
                BuildFailure::Link => {},
                _ => m.append(log),
            }
            Err(m)
        },
        _ => Ok((program, uniform_proj)),
    }
}

/// The imgui build after `k` steps that all succeed.
pub open spec fn imgui_run_ok(k: nat) -> ImguiBuildView
    decreases k,
{
    if k == 0 {
        ImguiBuildView { done: 0, failure: None }
    } else {
        imgui_after_step(imgui_run_ok((k - 1) as nat), true)
    }
}

proof fn lemma_imgui_run_ok(k: nat)
    ensures
        imgui_run_ok(k) == (ImguiBuildView { done: k, failure: None }),
    decreases k,
{
    if k > 0 {
        lemma_imgui_run_ok((k - 1) as nat);
    }
}

/// A rejected imgui vertex stage ends the build there: it fails with the
/// vertex stage, the vertex shader is not attached and the fragment stage is
/// never compiled.
pub proof fn law_imgui_vertex_failure_stops()
    ensures
        imgui_build_steps()[2] == ImguiBuildStep::CheckVertex,
        imgui_pending(imgui_after_step(imgui_run_ok(2), false)) is None,
        imgui_outcome(imgui_after_step(imgui_run_ok(2), false)) == Some(Err::<(), BuildFailure>(BuildFailure::Vertex)),
{
    lemma_imgui_run_ok(2);
}

/// A rejected imgui fragment stage fails the build with the fragment stage,
/// before it is attached or anything is linked.
pub proof fn law_imgui_fragment_failure_stops()
    ensures
        imgui_build_steps()[5] == ImguiBuildStep::CheckFragment,
        imgui_pending(imgui_after_step(imgui_run_ok(5), false)) is None,
        imgui_outcome(imgui_after_step(imgui_run_ok(5), false)) == Some(Err::<(), BuildFailure>(BuildFailure::Fragment)),
{
    lemma_imgui_run_ok(5);
}

/// A rejected imgui link fails the build with the link, before the shaders
/// are flagged for deletion or the program is used.
pub proof fn law_imgui_link_failure_stops()
    ensures
        imgui_build_steps()[11] == ImguiBuildStep::CheckLink,
        imgui_pending(imgui_after_step(imgui_run_ok(11), false)) is None,
        imgui_outcome(imgui_after_step(imgui_run_ok(11), false)) == Some(Err::<(), BuildFailure>(BuildFailure::Link)),
{
    lemma_imgui_run_ok(11);
}

/// The imgui build succeeds exactly when every step has been done with no
/// check failing; before that it is still under way.
pub proof fn law_imgui_success_after_every_step(k: nat)
    requires
        0 < k <= imgui_build_steps().len(),
    ensures
        imgui_outcome(imgui_run_ok(k)) == (if k == imgui_build_steps().len() {
            Some(Ok::<(), BuildFailure>(()))
        } else {
            None
        }),
{
    lemma_imgui_run_ok(k);
}

} // verus!
