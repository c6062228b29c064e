//! Render objects: vertex and index buffers on the GPU, the vertex data they
//! were filled from, their material, and the model matrix of the current frame.

use vstd::prelude::*;
use std::rc::Rc;
use crate::gl::{GL_DYNAMIC_DRAW, GL_STATIC_DRAW};
use crate::material::SwitchGLMaterial;
use crate::vertex::{component_offset, has, vertex_size, VertexBuffer, VertexComponent, VertexComponents};

verus! {

/// Usage hint for a vertex buffer: dynamic when the host rewrites it,
/// static otherwise.
pub open spec fn vertex_usage(host_dynamic: bool) -> u32 {
    if host_dynamic { GL_DYNAMIC_DRAW } else { GL_STATIC_DRAW }
}

pub fn vertex_buffer_usage(host_dynamic: bool) -> (r: u32)
    ensures
        r == vertex_usage(host_dynamic),
{
    if host_dynamic { GL_DYNAMIC_DRAW } else { GL_STATIC_DRAW }
}

/// A drawable object. `P` is the material parameter block, `M` the engine's
/// 4x4 matrix type.
pub struct SwitchGLRenderObject<P, M> {
    buffers: [u32; 2],
    vertices: VertexBuffer,
    material: Rc<SwitchGLMaterial<P>>,
    indices: Vec<u32>,
    model_matrix: M,
}

pub struct RenderObjectView<P, M> {
    pub vertex_buffer: u32,
    pub index_buffer: u32,
    pub components: VertexComponents,
    pub vertex_bytes: Seq<u8>,
    pub material: SwitchGLMaterial<P>,
    pub indices: Seq<u32>,
    pub model_matrix: M,
}

impl<P, M> View for SwitchGLRenderObject<P, M> {
    type V = RenderObjectView<P, M>;

    closed spec fn view(&self) -> RenderObjectView<P, M> {
        RenderObjectView {
            vertex_buffer: self.buffers[0],
            index_buffer: self.buffers[1],
            components: self.vertices.layout_spec().components_spec(),
            vertex_bytes: self.vertices.bytes(),
            material: *self.material,
            indices: self.indices@,
            model_matrix: self.model_matrix,
        }
    }
}

/// Offset reported for a component: its offset when the layout carries it,
/// else 0 (programs may declare components a buffer lacks; their attribute
/// then reads from offset 0 and is ignored, rather than the draw aborting).
pub open spec fn offset_or_zero(cs: VertexComponents, c: VertexComponent) -> nat {
    if has(cs, c) { component_offset(cs, c) } else { 0 }
}

impl<P, M> SwitchGLRenderObject<P, M> {
    /// A render object over the GL buffers `vertex_buffer` and `index_buffer`,
    /// filled from `vertices` and `indices`.
    pub fn new(
        vertex_buffer: u32,
        index_buffer: u32,
        vertices: VertexBuffer,
        indices: Vec<u32>,
        material: Rc<SwitchGLMaterial<P>>,
        model_matrix: M,
    ) -> (r: Self)
        ensures
            r@ == (RenderObjectView {
                vertex_buffer,
                index_buffer,
                components: vertices.layout_spec().components_spec(),
                vertex_bytes: vertices.bytes(),
                material: *material,
                indices: indices@,
                model_matrix,
            }),
    {
        SwitchGLRenderObject { buffers: [vertex_buffer, index_buffer], vertices, material, indices, model_matrix }
    }

    pub fn material(&self) -> (r: &SwitchGLMaterial<P>)
        ensures
            *r == self@.material,
    {
        &self.material
    }

    /// The debug name of the object's material.
    pub fn material_debug_name(&self) -> (r: Option<&str>)
        ensures
            r matches Some(n) && n@ == self@.material@.name,
    {
        Some(self.material.name())
    }

    pub fn vertices(&self) -> (r: &VertexBuffer)
        ensures
            r.layout_spec().components_spec() == self@.components,
            r.bytes() == self@.vertex_bytes,
    {
        &self.vertices
    }

    /// Replaces the vertex bytes (the data to upload again); the layout stays.
    pub fn update_vertex_data(&mut self, data: Vec<u8>)
        ensures
            final(self)@ == (RenderObjectView { vertex_bytes: data@, ..old(self)@ }),
    {
        self.vertices.set_data(data);
    }

    /// Bytes of one vertex.
    pub fn stride(&self) -> (r: i32)
        ensures
            r as int == vertex_size(self@.components),
    {
        self.vertices.layout().size() as i32
    }

    fn offset_of(&self, component: VertexComponent) -> (r: Option<usize>)
        ensures
            r == (if has(self@.components, component) {
                Some(component_offset(self@.components, component) as usize)
            } else {
                None
            }),
    {
        self.vertices.layout().get_offset(component)
    }

    pub fn vertex_offset(&self) -> (r: usize)
        ensures
            r == offset_or_zero(self@.components, VertexComponent::Position),
    {
        match self.offset_of(VertexComponent::Position) {
            Some(o) => o,
            None => 0,
        }
    }

    pub fn normal_offset(&self) -> (r: usize)
        ensures
            r == offset_or_zero(self@.components, VertexComponent::Normal),
    {
        match self.offset_of(VertexComponent::Normal) {
            Some(o) => o,
            None => 0,
        }
    }

    pub fn tex_coord_offset(&self) -> (r: usize)
        ensures
            r == offset_or_zero(self@.components, VertexComponent::TexCoord),
    {
        match self.offset_of(VertexComponent::TexCoord) {
            Some(o) => o,
            None => 0,
        }
    }

    pub fn tex_coord2_offset(&self) -> (r: usize)
        ensures
            r == offset_or_zero(self@.components, VertexComponent::TexCoord2),
    {
        match self.offset_of(VertexComponent::TexCoord2) {
            Some(o) => o,
            None => 0,
        }
    }

    pub fn has_component(&self, component: VertexComponent) -> (r: bool)
        ensures
            r == has(self@.components, component),
    {
        self.offset_of(component).is_some()
    }

    pub fn vertex_buffer(&self) -> (r: u32)
        ensures
            r == self@.vertex_buffer,
    {
        self.buffers[0]
    }

    pub fn index_buffer(&self) -> (r: u32)
        ensures
            r == self@.index_buffer,
    {
        self.buffers[1]
    }

    /// Number of indices, as the `i32` count GLES2 draws take.
    pub fn index_count(&self) -> (r: i32)
        ensures
            r == self@.indices.len() as i32,
    {
        self.indices.len() as i32
    }

    pub fn indices(&self) -> (r: &[u32])
        ensures
            r@ == self@.indices,
    {
        self.indices.as_slice()
    }

    pub fn set_model_matrix(&mut self, model_matrix: M)
        ensures
            final(self)@ == (RenderObjectView { model_matrix, ..old(self)@ }),
    {
        self.model_matrix = model_matrix;
    }

    pub fn model_matrix(&self) -> (r: M)
        where
            M: Copy,
        ensures
            r == self@.model_matrix,
    {
        self.model_matrix
    }
}

} // verus!
