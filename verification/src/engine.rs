//! Frame bookkeeping of the GLES2 rendering engine: the view extent, the
//! count of scene frames, the throttle of the GL error probe, and which
//! bring-up report a scene frame owes.

use vstd::prelude::*;
use crate::shader::ShaderProgram;

verus! {

/// Docked resolution: the initial view extent until the engine is told otherwise.
pub const DEFAULT_WIDTH: u32 = 1920;
pub const DEFAULT_HEIGHT: u32 = 1080;

/// The GL error probe runs once every this many scene frames.
pub const ERROR_PROBE_PERIOD: u64 = 600;

/// What a scene frame reports: nothing, the first frame that drew objects,
/// or a change in the number of objects drawn.
#[derive(Clone, Copy, Debug, PartialEq, Eq, Structural)]
pub enum SceneReport {
    Quiet,
    FirstDraw { objects: usize, visible_entities: usize, frame: u64 },
    ObjectCountChanged { from: usize, to: usize, frame: u64 },
}

pub struct SwitchGLFrameState {
    extent: (u32, u32),
    scene_frames: u64,
    first_draw_logged: bool,
    last_object_count: usize,
}

pub struct FrameStateView {
    pub extent: (u32, u32),
    pub scene_frames: u64,
    pub first_draw_logged: bool,
    pub last_object_count: usize,
}

impl View for SwitchGLFrameState {
    type V = FrameStateView;

    closed spec fn view(&self) -> FrameStateView {
        FrameStateView {
            extent: self.extent,
            scene_frames: self.scene_frames,
            first_draw_logged: self.first_draw_logged,
            last_object_count: self.last_object_count,
        }
    }
}

/// The report owed by a scene frame drawing `objects` objects of
/// `visible_entities` visible entities from state `s` (whose frame counter
/// has already advanced to `frame`).
pub open spec fn report_for(s: FrameStateView, objects: usize, visible_entities: usize, frame: u64) -> SceneReport {
    if objects != 0 && !s.first_draw_logged {
        SceneReport::FirstDraw { objects, visible_entities, frame }
    } else if objects != s.last_object_count {
        SceneReport::ObjectCountChanged { from: s.last_object_count, to: objects, frame }
    } else {
        SceneReport::Quiet
    }
}

/// The state after a scene frame drawing `objects` objects.
pub open spec fn after_scene(s: FrameStateView, objects: usize) -> FrameStateView {
    FrameStateView {
        extent: s.extent,
        scene_frames: (s.scene_frames + 1) as u64,
        first_draw_logged: s.first_draw_logged || objects != 0,
        last_object_count: objects,
    }
}

impl SwitchGLFrameState {
    pub fn new() -> (r: Self)
        ensures
            r@ == (FrameStateView {
                extent: (DEFAULT_WIDTH, DEFAULT_HEIGHT),
                scene_frames: 0,
                first_draw_logged: false,
                last_object_count: 0,
            }),
    {
        SwitchGLFrameState {
            extent: (DEFAULT_WIDTH, DEFAULT_HEIGHT),
            scene_frames: 0,
            first_draw_logged: false,
            last_object_count: 0,
        }
    }

    pub fn view_extent(&self) -> (r: (u32, u32))
        ensures
            r == self@.extent,
    {
        self.extent
    }

    /// The viewport follows the logical size the engine is resized to.
    pub fn notify_resized(&mut self, logical_size: (u32, u32))
        ensures
            final(self)@ == (FrameStateView { extent: logical_size, ..old(self)@ }),
    {
        self.extent = logical_size;
    }

    pub fn scene_frames(&self) -> (r: u64)
        ensures
            r == self@.scene_frames,
    {
        self.scene_frames
    }

    /// Counts a scene frame that draws `objects` objects of
    /// `visible_entities` visible entities and returns the report it owes.
    pub fn record_scene_frame(&mut self, objects: usize, visible_entities: usize) -> (r: SceneReport)
        requires
            old(self)@.scene_frames < u64::MAX,
        ensures
            final(self)@ == after_scene(old(self)@, objects),
            r == report_for(old(self)@, objects, visible_entities, (old(self)@.scene_frames + 1) as u64),
    {
        self.scene_frames = self.scene_frames + 1;
        let report = if objects != 0 && !self.first_draw_logged {
            self.first_draw_logged = true;
            SceneReport::FirstDraw { objects, visible_entities, frame: self.scene_frames }
        } else if objects != self.last_object_count {
            SceneReport::ObjectCountChanged { from: self.last_object_count, to: objects, frame: self.scene_frames }
        } else {
            SceneReport::Quiet
        };
        self.last_object_count = objects;
        report
    }

    /// Whether this frame probes `glGetError` (and reports a failed buffer swap).
    pub fn error_probe_due(&self) -> (r: bool)
        ensures
            r == (self@.scene_frames % ERROR_PROBE_PERIOD == 1),
    {
        self.scene_frames % ERROR_PROBE_PERIOD == 1
    }
}


/// The first-draw report is made once: after a frame that drew objects, no
/// later frame reports a first draw.
pub proof fn law_first_draw_once(s: FrameStateView, objects: usize, later: usize, visible: usize, frame: u64)
    requires
        objects != 0,
    ensures
        after_scene(s, objects).first_draw_logged,
        !(report_for(after_scene(s, objects), later, visible, frame) is FirstDraw),
        after_scene(after_scene(s, objects), later).first_draw_logged,
{
}

/// A frame that draws as many objects as the last one, after the first draw
/// has been reported, reports nothing.
pub proof fn law_steady_frames_are_quiet(s: FrameStateView, visible: usize, frame: u64)
    requires
        s.first_draw_logged,
    ensures
        report_for(s, s.last_object_count, visible, frame) == SceneReport::Quiet,
{
}


/// EGL attribute values used when choosing the config and creating the context.
pub const EGL_NONE: i32 = 0x3038;
pub const EGL_SURFACE_TYPE: i32 = 0x3033;
pub const EGL_WINDOW_BIT: i32 = 0x0004;
pub const EGL_RENDERABLE_TYPE: i32 = 0x3040;
pub const EGL_OPENGL_ES2_BIT: i32 = 0x0004;
pub const EGL_RED_SIZE: i32 = 0x3024;
pub const EGL_GREEN_SIZE: i32 = 0x3023;
pub const EGL_BLUE_SIZE: i32 = 0x3022;
pub const EGL_ALPHA_SIZE: i32 = 0x3021;
pub const EGL_DEPTH_SIZE: i32 = 0x3025;
pub const EGL_CONTEXT_CLIENT_VERSION: i32 = 0x3098;

/// The config the engine asks EGL for: a window surface for GLES2 with
/// 8 bits per RGBA channel and a 24-bit depth buffer, terminated by `EGL_NONE`.
pub open spec fn config_attributes() -> Seq<i32> {
    seq![
        EGL_SURFACE_TYPE,
        EGL_WINDOW_BIT,
        EGL_RENDERABLE_TYPE,
        EGL_OPENGL_ES2_BIT,
        EGL_RED_SIZE,
        8i32,
        EGL_GREEN_SIZE,
        8i32,
        EGL_BLUE_SIZE,
        8i32,
        EGL_ALPHA_SIZE,
        8i32,
        EGL_DEPTH_SIZE,
        24i32,
        EGL_NONE,
    ]
}

pub fn egl_config_attributes() -> (r: Vec<i32>)
    ensures
        r@ == config_attributes(),
{
    let r = vec![
        EGL_SURFACE_TYPE,
        EGL_WINDOW_BIT,
        EGL_RENDERABLE_TYPE,
        EGL_OPENGL_ES2_BIT,
        EGL_RED_SIZE,
        8,
        EGL_GREEN_SIZE,
        8,
        EGL_BLUE_SIZE,
        8,
        EGL_ALPHA_SIZE,
        8,
        EGL_DEPTH_SIZE,
        24,
        EGL_NONE,
    ];
    assert(r@ =~= config_attributes());
    r
}

/// A GLES 2 context.
pub fn egl_context_attributes() -> (r: Vec<i32>)
    ensures
        r@ == seq![EGL_CONTEXT_CLIENT_VERSION, 2i32, EGL_NONE],
{
    let r = vec![EGL_CONTEXT_CLIENT_VERSION, 2, EGL_NONE];
    assert(r@ =~= seq![EGL_CONTEXT_CLIENT_VERSION, 2i32, EGL_NONE]);
    r
}

/// Scene lights uploaded per frame: the first this many. The lit shaders
/// pick the nearest two of them per vertex.
pub const MAX_LIGHTS: usize = 4;

/// Capacity of the light uniform arrays, in vec4s.
pub const LIGHT_SLOTS: usize = 16;

/// The lights uploaded of `n` scene lights.
pub open spec fn uploaded_lights(n: int) -> int {
    if n < MAX_LIGHTS { n } else { MAX_LIGHTS as int }
}

pub fn light_count(n: usize) -> (r: usize)
    ensures
        r == uploaded_lights(n as int),
{
    if n < MAX_LIGHTS { n } else { MAX_LIGHTS }
}

/// Packs per-light vec4s into the `LIGHT_SLOTS` x vec4 uniform array: slot
/// `4 * k + j` holds component `j` of light `k` for each uploaded light, and
/// the slots of lights not present hold `zero`.
pub fn pack_light_vec4s<T: Copy>(lights: &[[T; 4]], zero: T) -> (r: Vec<T>)
    ensures
        r@.len() == 4 * LIGHT_SLOTS,
        forall|k: int, j: int|
            0 <= k < uploaded_lights(lights@.len() as int) && 0 <= j < 4 ==> #[trigger] r@[4 * k + j]
                == lights@[k]@[j],
        forall|i: int| 4 * uploaded_lights(lights@.len() as int) <= i < 4 * LIGHT_SLOTS ==> #[trigger] r@[i] == zero,
{
    let count = light_count(lights.len());
    let mut r: Vec<T> = Vec::new();
    let mut k: usize = 0;
    while k < count
        invariant
            count == uploaded_lights(lights@.len() as int),
            k <= count,
            r@.len() == 4 * k,
            forall|k2: int, j: int| 0 <= k2 < k && 0 <= j < 4 ==> #[trigger] r@[4 * k2 + j] == lights@[k2]@[j],
        decreases count - k,
    {
        let light = lights[k];
        r.push(light[0]);
        r.push(light[1]);
        r.push(light[2]);
        r.push(light[3]);
        proof {
            assert forall|k2: int, j: int| 0 <= k2 < k + 1 && 0 <= j < 4 implies #[trigger] r@[4 * k2 + j]
                == lights@[k2]@[j] by {
                if k2 == k {
                    assert(light@ == lights@[k as int]@);
                }
            }
        }
        k = k + 1;
    }
    while r.len() < 4 * LIGHT_SLOTS
        invariant
            count == uploaded_lights(lights@.len() as int),
            4 * count <= r@.len() <= 4 * LIGHT_SLOTS,
            forall|k2: int, j: int| 0 <= k2 < count && 0 <= j < 4 ==> #[trigger] r@[4 * k2 + j] == lights@[k2]@[j],
            forall|i: int| 4 * count <= i < r@.len() ==> #[trigger] r@[i] == zero,
        decreases 4 * LIGHT_SLOTS - r@.len(),
    {
        r.push(zero);
    }
    r
}


/// How many times `p` occurs in `s`.
pub open spec fn count_of(s: Seq<ShaderProgram>, p: ShaderProgram) -> nat
    decreases s.len(),
{
    if s.len() == 0 {
        0
    } else {
        count_of(s.drop_last(), p) + if s.last() == p { 1nat } else { 0nat }
    }
}

/// Every engine program, in the order of their names.
pub open spec fn programs_by_name() -> Seq<ShaderProgram> {
    seq![
        ShaderProgram::GradientY,
        ShaderProgram::GrassWind,
        ShaderProgram::Pal3Actor,
        ShaderProgram::Pal3Geom,
        ShaderProgram::Pal3Prop,
        ShaderProgram::TerrainSplat,
        ShaderProgram::TexturedDynamicLit,
        ShaderProgram::TexturedLightmap,
        ShaderProgram::TexturedNoLight,
    ]
}

/// `(program, count)` for the first `k` programs in name order that occur in
/// `s`, skipping those that do not.
pub open spec fn counts_upto(s: Seq<ShaderProgram>, k: nat) -> Seq<(ShaderProgram, usize)>
    decreases k,
{
    if k == 0 {
        seq![]
    } else {
        let prev = counts_upto(s, (k - 1) as nat);
        let p = programs_by_name()[k - 1];
        if count_of(s, p) > 0 {
            prev.push((p, count_of(s, p) as usize))
        } else {
            prev
        }
    }
}

/// The objects drawn per program, in program-name order, for the bring-up
/// report: each program that occurs in `s` once, with how often it occurs.
pub open spec fn program_counts_spec(s: Seq<ShaderProgram>) -> Seq<(ShaderProgram, usize)> {
    counts_upto(s, 9)
}

fn programs_in_name_order() -> (r: Vec<ShaderProgram>)
    ensures
        r@ == programs_by_name(),
{
    let r = vec![
        ShaderProgram::GradientY,
        ShaderProgram::GrassWind,
        ShaderProgram::Pal3Actor,
        ShaderProgram::Pal3Geom,
        ShaderProgram::Pal3Prop,
        ShaderProgram::TerrainSplat,
        ShaderProgram::TexturedDynamicLit,
        ShaderProgram::TexturedLightmap,
        ShaderProgram::TexturedNoLight,
    ];
    assert(r@ =~= programs_by_name());
    r
}

proof fn lemma_count_bounded(s: Seq<ShaderProgram>, p: ShaderProgram)
    ensures
        count_of(s, p) <= s.len(),
    decreases s.len(),
{
    if s.len() > 0 {
        lemma_count_bounded(s.drop_last(), p);
    }
}

fn count_program(programs: &[ShaderProgram], p: ShaderProgram) -> (r: usize)
    ensures
        r == count_of(programs@, p),
{
    let mut c: usize = 0;
    let mut i: usize = 0;
    while i < programs.len()
        invariant
            i <= programs@.len(),
            c == count_of(programs@.take(i as int), p),
        decreases programs@.len() - i,
    {
        proof {
            assert(programs@.take(i + 1).drop_last() =~= programs@.take(i as int));
            lemma_count_bounded(programs@.take(i + 1), p);
        }
        if programs[i] == p {
            c = c + 1;
        }
        i = i + 1;
    }
    proof {
        assert(programs@.take(i as int) =~= programs@);
    }
    c
}

/// The number of drawn objects per program, as the bring-up report lists
/// them: `programs` holds the program of each drawn object.
pub fn program_counts(programs: &[ShaderProgram]) -> (r: Vec<(ShaderProgram, usize)>)
    ensures
        r@ == program_counts_spec(programs@),
{
    let order = programs_in_name_order();
    let mut r: Vec<(ShaderProgram, usize)> = Vec::new();
    let mut k: usize = 0;
    while k < order.len()
        invariant
            order@ == programs_by_name(),
            k <= 9,
            r@ == counts_upto(programs@, k as nat),
        decreases 9 - k,
    {
        let p = order[k];
        let c = count_program(programs, p);
        if c > 0 {
            r.push((p, c));
        }
        k = k + 1;
    }
    r
}

} // verus!
