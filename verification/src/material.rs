//! Materials: a shader, the textures it samples, its parameters and the
//! blend, depth and cull modes its draws use.

use vstd::prelude::*;
use std::rc::Rc;
use crate::shader::SwitchGLShader;
use crate::texture::SwitchGLTexture;
use vstd::string::StringExecFns;

verus! {

#[derive(Clone, Copy, Debug, PartialEq, Eq, Structural)]
pub enum BlendMode {
    Opaque,
    AlphaTest,
    AlphaBlend,
    Additive,
    Multiply,
}

#[derive(Clone, Copy, Debug, PartialEq, Eq, Structural)]
pub enum DepthMode {
    TestWrite,
    TestOnly,
    Disabled,
}

#[derive(Clone, Copy, Debug, PartialEq, Eq, Structural)]
pub enum CullMode {
    Back,
    Front,
    /// No face culling (the engine calls this mode `None`).
    Disabled,
}

/// A material of the GLES2 backend. `P` is the engine's material parameter
/// block (tint, alpha reference, intensity).
pub struct SwitchGLMaterial<P> {
    name: String,
    shader: Rc<SwitchGLShader>,
    textures: Vec<Rc<SwitchGLTexture>>,
    params: P,
    blend: BlendMode,
    depth: DepthMode,
    cull: CullMode,
}

pub struct MaterialView<P> {
    pub name: Seq<char>,
    pub shader: SwitchGLShader,
    pub textures: Seq<Rc<SwitchGLTexture>>,
    pub params: P,
    pub blend: BlendMode,
    pub depth: DepthMode,
    pub cull: CullMode,
}

impl<P> View for SwitchGLMaterial<P> {
    type V = MaterialView<P>;

    closed spec fn view(&self) -> MaterialView<P> {
        MaterialView {
            name: self.name@,
            shader: *self.shader,
            textures: self.textures@,
            params: self.params,
            blend: self.blend,
            depth: self.depth,
            cull: self.cull,
        }
    }
}

impl<P> SwitchGLMaterial<P> {
    /// A material named `name` (the material definition's debug name), with
    /// its shader, its textures in sampler order, and its modes.
    pub fn new(
        name: String,
        shader: Rc<SwitchGLShader>,
        textures: Vec<Rc<SwitchGLTexture>>,
        params: P,
        blend: BlendMode,
        depth: DepthMode,
        cull: CullMode,
    ) -> (r: Self)
        ensures
            r@ == (MaterialView { name: name@, shader: *shader, textures: textures@, params, blend, depth, cull }),
    {
        SwitchGLMaterial { name, shader, textures, params, blend, depth, cull }
    }

    pub fn name(&self) -> (r: &str)
        ensures
            r@ == self@.name,
    {
        self.name.as_str()
    }

    /// The debug text of the material: `SwitchGLMaterial(<name>)`.
    pub fn debug_label(&self) -> (r: String)
        ensures
            r@ == "SwitchGLMaterial("@ + self@.name + ")"@,
    {
        let mut label = String::from_str("SwitchGLMaterial(");
        label.append(self.name.as_str());
        label.append(")");
        label
    }

    pub fn shader(&self) -> (r: &SwitchGLShader)
        ensures
            *r == self@.shader,
    {
        &self.shader
    }

    pub fn textures(&self) -> (r: &[Rc<SwitchGLTexture>])
        ensures
            r@ == self@.textures,
    {
        self.textures.as_slice()
    }

    pub fn params(&self) -> (r: &P)
        ensures
            *r == self@.params,
    {
        &self.params
    }

    pub fn blend(&self) -> (r: BlendMode)
        ensures
            r == self@.blend,
    {
        self.blend
    }

    pub fn depth(&self) -> (r: DepthMode)
        ensures
            r == self@.depth,
    {
        self.depth
    }

    pub fn cull(&self) -> (r: CullMode)
        ensures
            r == self@.cull,
    {
        self.cull
    }
}

} // verus!
