//! Vertex components and the interleaved layout they pack into: position,
//! normal, texcoord, texcoord2, in that order, each only when present.

use vstd::prelude::*;

verus! {

/// One vertex component.
#[derive(Clone, Copy, Debug, PartialEq, Eq, Structural)]
pub enum VertexComponent {
    Position,
    Normal,
    TexCoord,
    TexCoord2,
}

/// A set of vertex components.
#[derive(Clone, Copy, Debug, PartialEq, Eq, Structural)]
pub struct VertexComponents {
    pub position: bool,
    pub normal: bool,
    pub texcoord: bool,
    pub texcoord2: bool,
}

pub open spec fn has(cs: VertexComponents, c: VertexComponent) -> bool {
    match c {
        VertexComponent::Position => cs.position,
        VertexComponent::Normal => cs.normal,
        VertexComponent::TexCoord => cs.texcoord,
        VertexComponent::TexCoord2 => cs.texcoord2,
    }
}

/// Bytes one component takes: a `Vec3` of `f32` for position and normal, a
/// `Vec2` for each texture coordinate set.
pub open spec fn component_size(c: VertexComponent) -> nat {
    match c {
        VertexComponent::Position => 12,
        VertexComponent::Normal => 12,
        VertexComponent::TexCoord => 8,
        VertexComponent::TexCoord2 => 8,
    }
}

/// Bytes taken by `c` in `cs`: its size when present, else nothing.
pub open spec fn slot(cs: VertexComponents, c: VertexComponent) -> nat {
    if has(cs, c) { component_size(c) } else { 0 }
}

/// Offset of `c` within a vertex of layout `cs`: the bytes of the present
/// components that come before it.
pub open spec fn component_offset(cs: VertexComponents, c: VertexComponent) -> nat {
    match c {
        VertexComponent::Position => 0,
        VertexComponent::Normal => slot(cs, VertexComponent::Position),
        VertexComponent::TexCoord => slot(cs, VertexComponent::Position) + slot(cs, VertexComponent::Normal),
        VertexComponent::TexCoord2 => slot(cs, VertexComponent::Position) + slot(cs, VertexComponent::Normal)
            + slot(cs, VertexComponent::TexCoord),
    }
}

/// Bytes of one vertex of layout `cs`.
pub open spec fn vertex_size(cs: VertexComponents) -> nat {
    slot(cs, VertexComponent::Position) + slot(cs, VertexComponent::Normal) + slot(cs, VertexComponent::TexCoord)
        + slot(cs, VertexComponent::TexCoord2)
}

impl VertexComponents {
    pub fn new(position: bool, normal: bool, texcoord: bool, texcoord2: bool) -> (r: Self)
        ensures
            r == (VertexComponents { position, normal, texcoord, texcoord2 }),
    {
        VertexComponents { position, normal, texcoord, texcoord2 }
    }

    pub fn contains(&self, c: VertexComponent) -> (r: bool)
        ensures
            r == has(*self, c),
    {
        match c {
            VertexComponent::Position => self.position,
            VertexComponent::Normal => self.normal,
            VertexComponent::TexCoord => self.texcoord,
            VertexComponent::TexCoord2 => self.texcoord2,
        }
    }
}

fn slot_size(cs: VertexComponents, c: VertexComponent) -> (r: usize)
    ensures
        r == slot(cs, c),
{
    if cs.contains(c) {
        match c {
            VertexComponent::Position => 12,
            VertexComponent::Normal => 12,
            VertexComponent::TexCoord => 8,
            VertexComponent::TexCoord2 => 8,
        }
    } else {
        0
    }
}

/// The layout of one interleaved vertex.
#[derive(Clone, Copy, Debug, PartialEq, Eq, Structural)]
pub struct VertexLayout {
    components: VertexComponents,
}

impl VertexLayout {
    pub closed spec fn components_spec(&self) -> VertexComponents {
        self.components
    }

    pub fn from_components(components: VertexComponents) -> (r: Self)
        ensures
            r.components_spec() == components,
    {
        VertexLayout { components }
    }

    pub fn components(&self) -> (r: VertexComponents)
        ensures
            r == self.components_spec(),
    {
        self.components
    }

    /// Bytes of one vertex (the stride of the interleaved buffer).
    pub fn size(&self) -> (r: usize)
        ensures
            r == vertex_size(self.components_spec()),
    {
        let cs = self.components;
        slot_size(cs, VertexComponent::Position) + slot_size(cs, VertexComponent::Normal) + slot_size(
            cs,
            VertexComponent::TexCoord,
        ) + slot_size(cs, VertexComponent::TexCoord2)
    }

    /// Byte offset of `c` within a vertex, if the layout carries it.
    pub fn get_offset(&self, c: VertexComponent) -> (r: Option<usize>)
        ensures
            r == (if has(self.components_spec(), c) {
                Some(component_offset(self.components_spec(), c) as usize)
            } else {
                None
            }),
    {
        let cs = self.components;
        if !cs.contains(c) {
            return None;
        }
        let position = slot_size(cs, VertexComponent::Position);
        let normal = slot_size(cs, VertexComponent::Normal);
        let texcoord = slot_size(cs, VertexComponent::TexCoord);
        let offset = match c {
            VertexComponent::Position => 0,
            VertexComponent::Normal => position,
            VertexComponent::TexCoord => position + normal,
            VertexComponent::TexCoord2 => position + normal + texcoord,
        };
        Some(offset)
    }
}

/// Vertex data: a layout and the interleaved bytes.
pub struct VertexBuffer {
    layout: VertexLayout,
    data: Vec<u8>,
}

impl VertexBuffer {
    pub closed spec fn layout_spec(&self) -> VertexLayout {
        self.layout
    }

    pub closed spec fn bytes(&self) -> Seq<u8> {
        self.data@
    }

    pub fn new(layout: VertexLayout, data: Vec<u8>) -> (r: Self)
        ensures
            r.layout_spec() == layout,
            r.bytes() == data@,
    {
        VertexBuffer { layout, data }
    }

    pub fn layout(&self) -> (r: &VertexLayout)
        ensures
            *r == self.layout_spec(),
    {
        &self.layout
    }

    pub fn data(&self) -> (r: &[u8])
        ensures
            r@ == self.bytes(),
    {
        self.data.as_slice()
    }

    /// Replaces the vertex bytes, keeping the layout.
    pub fn set_data(&mut self, data: Vec<u8>)
        ensures
            final(self).layout_spec() == old(self).layout_spec(),
            final(self).bytes() == data@,
    {
        self.data = data;
    }
}


/// Every component a layout carries lies wholly inside one vertex.
pub proof fn law_components_fit_in_stride(cs: VertexComponents, c: VertexComponent)
    requires
        has(cs, c),
    ensures
        component_offset(cs, c) + component_size(c) <= vertex_size(cs),
{
}

/// Two different components of a layout never overlap.
pub proof fn law_components_disjoint(cs: VertexComponents, a: VertexComponent, b: VertexComponent)
    requires
        has(cs, a),
        has(cs, b),
        a != b,
    ensures
        component_offset(cs, a) + component_size(a) <= component_offset(cs, b) || component_offset(cs, b)
            + component_size(b) <= component_offset(cs, a),
{
}

} // verus!
