//! Offscreen render targets: a framebuffer with a color texture and a depth
//! renderbuffer, its extent, and when its GL objects are made and released.

use vstd::prelude::*;

verus! {

/// The GL objects of a render target: framebuffer, color texture, depth
/// renderbuffer. 0 stands for "none".
#[derive(Clone, Copy, Debug, PartialEq, Eq, Structural)]
pub struct TargetObjects {
    pub fbo: u32,
    pub color: u32,
    pub depth: u32,
}

/// The objects to delete when a target lets go of its GL objects: each one it
/// holds (non-zero), none twice.
#[derive(Clone, Copy, Debug, PartialEq, Eq, Structural)]
pub struct ReleasedObjects {
    pub fbo: Option<u32>,
    pub color: Option<u32>,
    pub depth: Option<u32>,
}

pub open spec fn held_object(handle: u32) -> Option<u32> {
    if handle != 0 { Some(handle) } else { None }
}

/// The objects a target in state `v` hands over when it lets go of its GL objects.
pub open spec fn released(v: RenderTargetView) -> ReleasedObjects {
    ReleasedObjects {
        fbo: held_object(v.objects.fbo),
        color: held_object(v.objects.color),
        depth: held_object(v.objects.depth),
    }
}

/// The target after it let go of its GL objects: it holds none, and keeps its extent.
pub open spec fn after_release(v: RenderTargetView) -> RenderTargetView {
    RenderTargetView { objects: TargetObjects { fbo: 0, color: 0, depth: 0 }, extent: v.extent }
}

/// GL objects cannot be zero-sized: each side is at least 1.
pub open spec fn clamp_extent(width: u32, height: u32) -> (u32, u32) {
    (if width >= 1 { width } else { 1 }, if height >= 1 { height } else { 1 })
}

/// The size the GL objects of a target asked for at `width` x `height` are made at.
pub fn allocation_extent(width: u32, height: u32) -> (r: (u32, u32))
    ensures
        r == clamp_extent(width, height),
{
    (if width >= 1 { width } else { 1 }, if height >= 1 { height } else { 1 })
}

pub struct SwitchGLRenderTarget {
    fbo: u32,
    color: u32,
    depth: u32,
    extent: (u32, u32),
}

pub struct RenderTargetView {
    pub objects: TargetObjects,
    pub extent: (u32, u32),
}

impl View for SwitchGLRenderTarget {
    type V = RenderTargetView;

    closed spec fn view(&self) -> RenderTargetView {
        RenderTargetView {
            objects: TargetObjects { fbo: self.fbo, color: self.color, depth: self.depth },
            extent: self.extent,
        }
    }
}

impl SwitchGLRenderTarget {
    /// A target asked for at `width` x `height`, holding `objects`, which were
    /// made at `allocation_extent(width, height)`.
    pub fn new(width: u32, height: u32, objects: TargetObjects) -> (r: Self)
        ensures
            r@ == (RenderTargetView { objects, extent: clamp_extent(width, height) }),
    {
        let extent = allocation_extent(width, height);
        SwitchGLRenderTarget { fbo: objects.fbo, color: objects.color, depth: objects.depth, extent }
    }

    pub fn framebuffer(&self) -> (r: u32)
        ensures
            r == self@.objects.fbo,
    {
        self.fbo
    }

    pub fn extent(&self) -> (r: (u32, u32))
        ensures
            r == self@.extent,
    {
        self.extent
    }

    /// The imgui texture id of the target: its color texture's GL name.
    pub fn imgui_texture_id(&self) -> (r: u64)
        ensures
            r == self@.objects.color as u64,
    {
        self.color as u64
    }

    /// Whether resizing to `width` x `height` recreates the GL objects, and at
    /// which size: not when the extent is already exactly that, otherwise at
    /// the clamped size.
    pub fn resize_request(&self, width: u32, height: u32) -> (r: Option<(u32, u32)>)
        ensures
            r == (if self@.extent == (width, height) {
                None
            } else {
                Some(clamp_extent(width, height))
            }),
    {
        if self.extent.0 == width && self.extent.1 == height {
            None
        } else {
            Some(allocation_extent(width, height))
        }
    }

    /// Lets go of the GL objects: returns the ones held, to delete, and keeps none.
    pub fn release(&mut self) -> (r: ReleasedObjects)
        ensures
            r == released(old(self)@),
            final(self)@ == after_release(old(self)@),
    {
        let fbo = if self.fbo != 0 {
            let h = self.fbo;
            self.fbo = 0;
            Some(h)
        } else {
            None
        };
        let color = if self.color != 0 {
            let h = self.color;
            self.color = 0;
            Some(h)
        } else {
            None
        };
        let depth = if self.depth != 0 {
            let h = self.depth;
            self.depth = 0;
            Some(h)
        } else {
            None
        };
        ReleasedObjects { fbo, color, depth }
    }

    /// Takes `objects`, made at `width` x `height`, as the target's objects.
    pub fn install(&mut self, objects: TargetObjects, width: u32, height: u32)
        ensures
            final(self)@ == (RenderTargetView { objects, extent: (width, height) }),
    {
        self.fbo = objects.fbo;
        self.color = objects.color;
        self.depth = objects.depth;
        self.extent = (width, height);
    }
}


/// Releasing a target that was already released deletes nothing: no GL
/// object is deleted twice, and the extent is kept.
pub proof fn law_release_is_idempotent(v: RenderTargetView)
    ensures
        released(after_release(v)) == (ReleasedObjects { fbo: None, color: None, depth: None }),
        after_release(after_release(v)) == after_release(v),
{
}

/// GL objects are never made zero-sized: every clamped extent is at least
/// 1 x 1, and an extent that already is keeps its size.
pub proof fn law_extent_clamp(width: u32, height: u32)
    ensures
        clamp_extent(width, height).0 >= 1,
        clamp_extent(width, height).1 >= 1,
        width >= 1 && height >= 1 ==> clamp_extent(width, height) == (width, height),
{
}

} // verus!
