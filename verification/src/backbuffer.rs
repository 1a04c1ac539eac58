//! The feedback buffer: a texture the size and format of the presentation
//! surface holding "last frame's output", which shaders sample through
//! binding group 1.
//!
//! In the model the texture's contents are tracked as `Option<nat>`: `None`
//! for the cleared state a fresh buffer starts in, `Some(k)` once the
//! presented output of frame `k` has been copied in. The bind group layout
//! is created once and survives every rebuild; a resize replaces texture,
//! view, sampler and bind group wholesale, never accumulating old resources.

use vstd::prelude::*;
use crate::gpu;

verus! {

/// The feedback texture with its view, sampler binding and bind group.
pub struct BackBuffer {
    bind_group: wgpu::BindGroup,
    bind_group_layout: wgpu::BindGroupLayout,
    sample_texture: wgpu::Texture,
    sample_texture_view: wgpu::TextureView,
    format: wgpu::TextureFormat,
    width: u32,
    height: u32,
    content: Ghost<Option<nat>>,
}

impl BackBuffer {
    pub closed spec fn width(&self) -> u32 {
        self.width
    }

    pub closed spec fn height(&self) -> u32 {
        self.height
    }

    /// The pixel format, always equal to the surface's presentation format.
    pub closed spec fn format_of(&self) -> wgpu::TextureFormat {
        self.format
    }

    /// The bind group layout, created once at startup and never replaced.
    pub closed spec fn layout_of(&self) -> wgpu::BindGroupLayout {
        self.bind_group_layout
    }

    /// The current bind group handle.
    pub closed spec fn group(&self) -> wgpu::BindGroup {
        self.bind_group
    }

    /// The current texture handle.
    pub closed spec fn texture_of(&self) -> wgpu::Texture {
        self.sample_texture
    }

    /// Which frame's presented output the texture holds: `None` while it is
    /// still in its cleared state, `Some(k)` after frame `k` was copied in.
    pub closed spec fn holds(&self) -> Option<nat> {
        self.content@
    }

    /// Create the texture, view, nearest-filtering sampler and bind group
    /// for one size, against the fixed layout.
    fn build_attachments(
        device: &wgpu::Device,
        layout: &wgpu::BindGroupLayout,
        width: u32,
        height: u32,
        format: wgpu::TextureFormat,
    ) -> (r: (wgpu::Texture, wgpu::TextureView, wgpu::BindGroup))
    {
        let texture = gpu::create_sample_texture(device, width, height, format);
        let view = gpu::create_texture_view(&texture);
        let sampler = gpu::create_nearest_sampler(device);
        let mut entries: Vec<wgpu::BindGroupEntry> = Vec::new();
        entries.push(gpu::texture_binding_entry(0, &view));
        entries.push(gpu::sampler_binding_entry(1, &sampler));
        let group = gpu::create_bind_group(device, layout, entries);
        (texture, view, group)
    }

    /// Bootstrap the feedback buffer with a cleared texture sized to the
    /// initial surface; it exists before the first frame renders.
    pub fn new(device: &wgpu::Device, width: u32, height: u32, format: wgpu::TextureFormat) -> (r:
        Self)
        ensures
            r.width() == width,
            r.height() == height,
            r.format_of() == format,
            r.holds() is None,
    {
        let mut layout_entries: Vec<wgpu::BindGroupLayoutEntry> = Vec::new();
        layout_entries.push(gpu::texture_layout_entry(0));
        layout_entries.push(gpu::sampler_layout_entry(1));
        let bind_group_layout = gpu::create_bind_group_layout(device, &layout_entries);
        let (sample_texture, sample_texture_view, bind_group) = Self::build_attachments(
            device,
            &bind_group_layout,
            width,
            height,
            format,
        );
        BackBuffer {
            bind_group,
            bind_group_layout,
            sample_texture,
            sample_texture_view,
            format,
            width,
            height,
            content: Ghost(None),
        }
    }

    /// Recreate texture, view, sampler and bind group for a new size,
    /// replacing the old ones outright. The layout and format are kept; the
    /// new texture starts cleared.
    pub fn rebuild(&mut self, device: &wgpu::Device, width: u32, height: u32)
        ensures
            final(self).width() == width,
            final(self).height() == height,
            final(self).format_of() == old(self).format_of(),
            final(self).layout_of() == old(self).layout_of(),
            final(self).holds() is None,
    {
        let (sample_texture, sample_texture_view, bind_group) = Self::build_attachments(
            device,
            &self.bind_group_layout,
            width,
            height,
            self.format,
        );
        self.sample_texture = sample_texture;
        self.sample_texture_view = sample_texture_view;
        self.bind_group = bind_group;
        self.width = width;
        self.height = height;
        self.content = Ghost(None);
    }

    /// Borrow the bind group for one render pass; never mutated mid-frame.
    pub fn bind_group(&self) -> (r: &wgpu::BindGroup)
        ensures
            *r == self.group(),
    {
        &self.bind_group
    }

    /// Borrow the layout for building the pipeline layout.
    pub fn bind_group_layout(&self) -> (r: &wgpu::BindGroupLayout)
        ensures
            *r == self.layout_of(),
    {
        &self.bind_group_layout
    }

    /// Borrow the texture as the destination of the end-of-frame copy.
    pub fn texture(&self) -> (r: &wgpu::Texture)
        ensures
            *r == self.texture_of(),
    {
        &self.sample_texture
    }

    /// Record that the presented output of frame `frame` has been copied
    /// into the texture.
    pub(crate) fn note_copied(&mut self, frame: Ghost<nat>)
        ensures
            final(self).holds() == Some(frame@),
            final(self).width() == old(self).width(),
            final(self).height() == old(self).height(),
            final(self).format_of() == old(self).format_of(),
            final(self).layout_of() == old(self).layout_of(),
            final(self).group() == old(self).group(),
            final(self).texture_of() == old(self).texture_of(),
    {
        self.content = Ghost(Some(frame@));
    }
}

} // verus!
