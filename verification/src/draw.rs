//! Per-draw GL state: blend, depth and cull state from a material's modes,
//! texture unit bindings, and the vertex attribute arrays of a render object.

use vstd::prelude::*;
use std::rc::Rc;
use crate::gl::{GL_BACK, GL_DST_COLOR, GL_FRONT, GL_ONE, GL_ONE_MINUS_SRC_ALPHA, GL_TEXTURE0, GL_TEXTURE1, GL_ZERO};
use crate::material::{BlendMode, CullMode, DepthMode, SwitchGLMaterial};
use crate::render_object::{offset_or_zero, SwitchGLRenderObject};
use crate::texture::SwitchGLTexture;
use crate::vertex::{has, vertex_size, VertexComponent};

verus! {

/// Blending for a draw: off, or on with `glBlendFuncSeparate` factors.
#[derive(Clone, Copy, Debug, PartialEq, Eq, Structural)]
pub enum BlendState {
    Disabled,
    Enabled { src_rgb: u32, dst_rgb: u32, src_alpha: u32, dst_alpha: u32 },
}

/// Blend state of each mode. Sources are premultiplied, so alpha test and
/// alpha blend both use ONE / ONE_MINUS_SRC_ALPHA (the fragment shaders keep
/// their cutout discard).
pub open spec fn blend_for(mode: BlendMode) -> BlendState {
    match mode {
        BlendMode::Opaque => BlendState::Disabled,
        BlendMode::AlphaTest | BlendMode::AlphaBlend => BlendState::Enabled {
            src_rgb: GL_ONE,
            dst_rgb: GL_ONE_MINUS_SRC_ALPHA,
            src_alpha: GL_ONE,
            dst_alpha: GL_ONE_MINUS_SRC_ALPHA,
        },
        BlendMode::Additive => BlendState::Enabled {
            src_rgb: GL_ONE,
            dst_rgb: GL_ONE,
            src_alpha: GL_ZERO,
            dst_alpha: GL_ONE,
        },
        BlendMode::Multiply => BlendState::Enabled {
            src_rgb: GL_DST_COLOR,
            dst_rgb: GL_ZERO,
            src_alpha: GL_ZERO,
            dst_alpha: GL_ONE,
        },
    }
}

pub fn blend_state(mode: BlendMode) -> (r: BlendState)
    ensures
        r == blend_for(mode),
{
    match mode {
        BlendMode::Opaque => BlendState::Disabled,
        BlendMode::AlphaTest | BlendMode::AlphaBlend => BlendState::Enabled {
            src_rgb: GL_ONE,
            dst_rgb: GL_ONE_MINUS_SRC_ALPHA,
            src_alpha: GL_ONE,
            dst_alpha: GL_ONE_MINUS_SRC_ALPHA,
        },
        BlendMode::Additive => BlendState::Enabled {
            src_rgb: GL_ONE,
            dst_rgb: GL_ONE,
            src_alpha: GL_ZERO,
            dst_alpha: GL_ONE,
        },
        BlendMode::Multiply => BlendState::Enabled {
            src_rgb: GL_DST_COLOR,
            dst_rgb: GL_ZERO,
            src_alpha: GL_ZERO,
            dst_alpha: GL_ONE,
        },
    }
}

/// Depth state of a draw: whether the depth test is on and whether depth is written.
#[derive(Clone, Copy, Debug, PartialEq, Eq, Structural)]
pub struct DepthState {
    pub test: bool,
    pub write: bool,
}

pub open spec fn depth_for(mode: DepthMode) -> DepthState {
    match mode {
        DepthMode::TestWrite => DepthState { test: true, write: true },
        DepthMode::TestOnly => DepthState { test: true, write: false },
        DepthMode::Disabled => DepthState { test: false, write: false },
    }
}

pub fn depth_state(mode: DepthMode) -> (r: DepthState)
    ensures
        r == depth_for(mode),
{
    match mode {
        DepthMode::TestWrite => DepthState { test: true, write: true },
        DepthMode::TestOnly => DepthState { test: true, write: false },
        DepthMode::Disabled => DepthState { test: false, write: false },
    }
}

/// Face culling of a draw: the face culled, or `None` for culling off.
pub open spec fn cull_for(mode: CullMode) -> Option<u32> {
    match mode {
        CullMode::Back => Some(GL_BACK),
        CullMode::Front => Some(GL_FRONT),
        CullMode::Disabled => None,
    }
}

pub fn cull_state(mode: CullMode) -> (r: Option<u32>)
    ensures
        r == cull_for(mode),
{
    match mode {
        CullMode::Back => Some(GL_BACK),
        CullMode::Front => Some(GL_FRONT),
        CullMode::Disabled => None,
    }
}

/// Texture units bound for a material: its first texture on unit 0 and its
/// second on unit 1; further textures are not sampled.
pub open spec fn texture_units(textures: Seq<Rc<SwitchGLTexture>>) -> Seq<(u32, u32)> {
    (if textures.len() > 0 {
        seq![(GL_TEXTURE0, textures[0]@.0)]
    } else {
        Seq::empty()
    }) + (if textures.len() > 1 {
        seq![(GL_TEXTURE1, textures[1]@.0)]
    } else {
        Seq::empty()
    })
}

/// `(texture unit, GL texture)` pairs to bind before drawing with `material`.
pub fn texture_bindings<P>(material: &SwitchGLMaterial<P>) -> (r: Vec<(u32, u32)>)
    ensures
        r@ == texture_units(material@.textures),
{
    let textures = material.textures();
    let mut r: Vec<(u32, u32)> = Vec::new();
    if textures.len() > 0 {
        r.push((GL_TEXTURE0, textures[0].texture_id()));
    }
    if textures.len() > 1 {
        r.push((GL_TEXTURE1, textures[1].texture_id()));
    }
    assert(r@ =~= texture_units(material@.textures));
    r
}

/// One vertex attribute array: enabled with `size` float components at
/// `offset` in vertices of `stride` bytes, or disabled.
#[derive(Clone, Copy, Debug, PartialEq, Eq, Structural)]
pub enum AttribArray {
    Enabled { index: u32, size: i32, stride: i32, offset: usize },
    Disabled { index: u32 },
}

/// The attribute arrays of a draw: position at 0 and texcoord at 1 always;
/// texcoord2 at 2 whenever the buffer carries a second UV set (grass uses it
/// as wind weights even with one texture); normal at 3 for lit programs.
/// Slots 2 and 3 are disabled otherwise rather than left from the last draw.
pub open spec fn attrib_arrays<P, M>(o: crate::render_object::RenderObjectView<P, M>) -> Seq<AttribArray> {
    let stride = vertex_size(o.components) as i32;
    seq![
        AttribArray::Enabled {
            index: 0,
            size: 3,
            stride,
            offset: offset_or_zero(o.components, VertexComponent::Position) as usize,
        },
        AttribArray::Enabled {
            index: 1,
            size: 2,
            stride,
            offset: offset_or_zero(o.components, VertexComponent::TexCoord) as usize,
        },
        if has(o.components, VertexComponent::TexCoord2) {
            AttribArray::Enabled {
                index: 2,
                size: 2,
                stride,
                offset: offset_or_zero(o.components, VertexComponent::TexCoord2) as usize,
            }
        } else {
            AttribArray::Disabled { index: 2 }
        },
        if has(o.components, VertexComponent::Normal) {
            AttribArray::Enabled {
                index: 3,
                size: 3,
                stride,
                offset: offset_or_zero(o.components, VertexComponent::Normal) as usize,
            }
        } else {
            AttribArray::Disabled { index: 3 }
        },
    ]
}

pub fn attribute_arrays<P, M>(obj: &SwitchGLRenderObject<P, M>) -> (r: Vec<AttribArray>)
    ensures
        r@ == attrib_arrays(obj@),
{
    let stride = obj.stride();
    let mut r: Vec<AttribArray> = Vec::new();
    r.push(AttribArray::Enabled { index: 0, size: 3, stride, offset: obj.vertex_offset() });
    r.push(AttribArray::Enabled { index: 1, size: 2, stride, offset: obj.tex_coord_offset() });
    if obj.has_component(VertexComponent::TexCoord2) {
        r.push(AttribArray::Enabled { index: 2, size: 2, stride, offset: obj.tex_coord2_offset() });
    } else {
        r.push(AttribArray::Disabled { index: 2 });
    }
    if obj.has_component(VertexComponent::Normal) {
        r.push(AttribArray::Enabled { index: 3, size: 3, stride, offset: obj.normal_offset() });
    } else {
        r.push(AttribArray::Disabled { index: 3 });
    }
    assert(r@ =~= attrib_arrays(obj@));
    r
}


/// Depth is only ever written with the depth test on; alpha-tested and
/// alpha-blended materials draw with the same blending; only opaque
/// materials draw with blending off.
pub proof fn law_draw_state_consistency(depth: DepthMode, blend: BlendMode)
    ensures
        depth_for(depth).write ==> depth_for(depth).test,
        blend_for(BlendMode::AlphaTest) == blend_for(BlendMode::AlphaBlend),
        (blend_for(blend) == BlendState::Disabled) <==> blend == BlendMode::Opaque,
{
}

/// Every draw sets up attribute slots 0, 1, 2 and 3, each exactly once and in
/// that order, so no slot keeps the state of a previous draw.
pub proof fn law_every_slot_set_once<P, M>(o: crate::render_object::RenderObjectView<P, M>)
    ensures
        attrib_arrays(o).len() == 4,
        forall|i: int|
            0 <= i < 4 ==> match #[trigger] attrib_arrays(o)[i] {
                AttribArray::Enabled { index, .. } => index == i,
                AttribArray::Disabled { index } => index == i,
            },
{
}

} // verus!
