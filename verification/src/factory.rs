//! The component factory's shader cache: one compiled program per engine
//! shader program, built on first use and shared by every material after.

use vstd::prelude::*;
use std::collections::HashMap;
use std::rc::Rc;
use crate::shader::{program_data, ShaderProgram, SwitchGLShader};

verus! {

/// The key a program's shader is cached under: its index among the engine's
/// programs.
pub open spec fn program_index(p: ShaderProgram) -> u64 {
    match p {
        ShaderProgram::TexturedNoLight => 0,
        ShaderProgram::TexturedLightmap => 1,
        ShaderProgram::GradientY => 2,
        ShaderProgram::TexturedDynamicLit => 3,
        ShaderProgram::TerrainSplat => 4,
        ShaderProgram::GrassWind => 5,
        ShaderProgram::Pal3Actor => 6,
        ShaderProgram::Pal3Geom => 7,
        ShaderProgram::Pal3Prop => 8,
    }
}

fn program_key(p: ShaderProgram) -> (r: u64)
    ensures
        r == program_index(p),
{
    match p {
        ShaderProgram::TexturedNoLight => 0,
        ShaderProgram::TexturedLightmap => 1,
        ShaderProgram::GradientY => 2,
        ShaderProgram::TexturedDynamicLit => 3,
        ShaderProgram::TerrainSplat => 4,
        ShaderProgram::GrassWind => 5,
        ShaderProgram::Pal3Actor => 6,
        ShaderProgram::Pal3Geom => 7,
        ShaderProgram::Pal3Prop => 8,
    }
}

/// Distinct programs are cached under distinct keys.
proof fn lemma_program_index_injective(p: ShaderProgram, q: ShaderProgram)
    ensures
        program_index(p) == program_index(q) ==> p == q,
{
    match p {
        ShaderProgram::TexturedNoLight => {},
        ShaderProgram::TexturedLightmap => {},
        ShaderProgram::GradientY => {},
        ShaderProgram::TexturedDynamicLit => {},
        ShaderProgram::TerrainSplat => {},
        ShaderProgram::GrassWind => {},
        ShaderProgram::Pal3Actor => {},
        ShaderProgram::Pal3Geom => {},
        ShaderProgram::Pal3Prop => {},
    }
}

/// `s` is the compiled program of engine program `p`.
pub open spec fn is_shader_of(s: SwitchGLShader, p: ShaderProgram) -> bool {
    s@.kind == p && s@.name == program_data(p).0
}

/// Every cached shader is the program it is cached under.
pub open spec fn shaders_match(cache: Map<ShaderProgram, Rc<SwitchGLShader>>) -> bool {
    forall|p: ShaderProgram| #[trigger] cache.contains_key(p) ==> is_shader_of(*cache[p], p)
}

/// Creates and caches the GL objects of the backend. Shader programs are
/// expensive to compile, so each engine program is built once.
pub struct SwitchGLComponentFactory {
    shaders: HashMap<u64, Rc<SwitchGLShader>>,
}

impl SwitchGLComponentFactory {
    /// The cached shader of each program built so far.
    pub closed spec fn cache(&self) -> Map<ShaderProgram, Rc<SwitchGLShader>> {
        Map::new(
            |p: ShaderProgram| self.shaders@.contains_key(program_index(p)),
            |p: ShaderProgram| self.shaders@[program_index(p)],
        )
    }

    pub fn new() -> (r: Self)
        ensures
            r.cache() == Map::<ShaderProgram, Rc<SwitchGLShader>>::empty(),
            shaders_match(r.cache()),
    {
        let r = SwitchGLComponentFactory { shaders: HashMap::new() };
        assert(r.cache() =~= Map::<ShaderProgram, Rc<SwitchGLShader>>::empty());
        r
    }

    /// The cached shader of `shader`, if it has been built.
    pub fn cached_shader(&self, shader: ShaderProgram) -> (r: Option<Rc<SwitchGLShader>>)
        ensures
            r == (if self.cache().contains_key(shader) {
                Some(self.cache()[shader])
            } else {
                None
            }),
    {
        broadcast use vstd::std_specs::hash::group_hash_axioms;

        let key = program_key(shader);
        match self.shaders.get(&key) {
            Some(s) => Some(s.clone()),
            None => None,
        }
    }

    /// The shader of `shader`: the cached one when it has been built, else
    /// the one `build` makes, which is cached for every later call.
    pub fn create_shader<F: FnOnce() -> SwitchGLShader>(&mut self, shader: ShaderProgram, build: F) -> (r: Rc<
        SwitchGLShader,
    >)
        requires
            shaders_match(old(self).cache()),
            !old(self).cache().contains_key(shader) ==> call_requires(build, ()),
            !old(self).cache().contains_key(shader) ==> forall|s: SwitchGLShader|
                call_ensures(build, (), s) ==> is_shader_of(s, shader),
        ensures
            is_shader_of(*r, shader),
            shaders_match(final(self).cache()),
            old(self).cache().contains_key(shader) ==> r == old(self).cache()[shader] && final(self).cache()
                == old(self).cache(),
            !old(self).cache().contains_key(shader) ==> call_ensures(build, (), *r) && final(self).cache()
                == old(self).cache().insert(shader, r),
    {
        broadcast use vstd::std_specs::hash::group_hash_axioms;

        match self.cached_shader(shader) {
            Some(s) => s,
            None => {
                let s = Rc::new(build());
                let key = program_key(shader);
                self.shaders.insert(key, s.clone());
                assert forall|p: ShaderProgram| #![auto]
                    self.cache().contains_key(p) == old(self).cache().insert(shader, s).contains_key(p)
                        && (self.cache().contains_key(p) ==> self.cache()[p] == old(self).cache().insert(
                        shader,
                        s,
                    )[p]) by {
                    lemma_program_index_injective(p, shader);
                }
                assert(self.cache() =~= old(self).cache().insert(shader, s));
                s
            },
        }
    }
}

} // verus!
