//! Trusted boundary to the `wgpu` graphics API.
//!
//! Every type declared here is opaque to the verifier, and every function is
//! an `external_body` wrapper around a `wgpu` call; the rest of the library
//! is verified against the contracts stated here. GPU handles carry no
//! observable state of their own in this model: which handle a structure
//! holds, and the plain-valued bookkeeping around the calls, is what the
//! verified layer reasons about.
//!
//! Two `wgpu` behaviours reach past these contracts and are the embedder's
//! to respect. [`acquire_frame`] panics on a surface that was never
//! configured; the library configures the surface before the first frame and
//! on every resize, so its own call paths never reach that state. And
//! diagnostics raised outside a compile attempt's error scope — a pipeline
//! that fails at link, a size beyond the device's texture limits — go to the
//! device's uncaptured-error handler, whose `wgpu` default aborts the
//! process: the embedder installs a handler at device creation that reports
//! validation diagnostics and reserves termination for out-of-memory.

use vstd::prelude::*;

verus! {

#[verifier::external_type_specification]
#[verifier::external_body]
pub struct ExDevice(wgpu::Device);

#[verifier::external_type_specification]
#[verifier::external_body]
pub struct ExQueue(wgpu::Queue);

#[verifier::external_type_specification]
#[verifier::external_body]
pub struct ExSurface<'w>(wgpu::Surface<'w>);

#[verifier::external_type_specification]
#[verifier::external_body]
pub struct ExSurfaceTexture(wgpu::SurfaceTexture);

#[verifier::external_type_specification]
#[verifier::external_body]
pub struct ExCommandEncoder(wgpu::CommandEncoder);

#[verifier::external_type_specification]
#[verifier::external_body]
pub struct ExCommandBuffer(wgpu::CommandBuffer);

#[verifier::external_type_specification]
#[verifier::external_body]
pub struct ExRenderPass<'e>(wgpu::RenderPass<'e>);

#[verifier::external_type_specification]
#[verifier::external_body]
pub struct ExRenderPipeline(wgpu::RenderPipeline);

#[verifier::external_type_specification]
#[verifier::external_body]
pub struct ExPipelineLayout(wgpu::PipelineLayout);

#[verifier::external_type_specification]
#[verifier::external_body]
pub struct ExShaderModule(wgpu::ShaderModule);

#[verifier::external_type_specification]
#[verifier::external_body]
pub struct ExBuffer(wgpu::Buffer);

#[verifier::external_type_specification]
#[verifier::external_body]
pub struct ExTexture(wgpu::Texture);

#[verifier::external_type_specification]
#[verifier::external_body]
pub struct ExTextureView(wgpu::TextureView);

#[verifier::external_type_specification]
#[verifier::external_body]
pub struct ExSampler(wgpu::Sampler);

#[verifier::external_type_specification]
#[verifier::external_body]
pub struct ExBindGroup(wgpu::BindGroup);

#[verifier::external_type_specification]
#[verifier::external_body]
pub struct ExBindGroupLayout(wgpu::BindGroupLayout);

#[verifier::external_type_specification]
#[verifier::external_body]
pub struct ExTextureFormat(wgpu::TextureFormat);

#[verifier::external_type_specification]
#[verifier::external_body]
pub struct ExColor(wgpu::Color);

#[verifier::external_type_specification]
#[verifier::external_body]
pub struct ExBindGroupLayoutEntry(wgpu::BindGroupLayoutEntry);

#[verifier::external_type_specification]
#[verifier::external_body]
pub struct ExBindGroupEntry<'a>(wgpu::BindGroupEntry<'a>);

#[verifier::external_type_specification]
#[verifier::external_body]
#[verifier::reject_recursive_types(V)]
pub struct ExSurfaceConfiguration<V>(wgpu_types::SurfaceConfiguration<V>);

/// What one attempt to acquire the next presentable surface image came to.
/// The variants mirror, one for one, those of the acquisition result in
/// `wgpu`; the frame scheduler decides from them what the current tick does.
pub enum AcquiredFrame {
    /// An image was acquired and can be rendered to.
    Ready(wgpu::SurfaceTexture),
    /// An image was acquired but no longer matches the surface exactly.
    Suboptimal(wgpu::SurfaceTexture),
    /// Acquisition timed out.
    Timeout,
    /// The window is occluded; nothing can be presented.
    Occluded,
    /// The surface configuration is outdated.
    Outdated,
    /// The surface was lost and must be reconfigured.
    Lost,
    /// Acquisition itself raised a validation error.
    ValidationFailed,
}

/// Relies on `wgpu::Device::clone`: a device is a shared handle and a clone
/// refers to the same logical device.
#[verifier::external_body]
pub(crate) fn clone_device(device: &wgpu::Device) -> (r: wgpu::Device)
    ensures
        r == *device,
{
    device.clone()
}

/// Relies on `wgpu::Device::push_error_scope` with the validation filter,
/// `wgpu::Device::create_shader_module`, and the popped scope's future run to
/// completion with `pollster::block_on`: the returned message is `Some`
/// exactly when the device reported a diagnostic while the module was
/// compiled, carrying that diagnostic's text. Nothing is assumed about which
/// sources validate.
#[verifier::external_body]
pub(crate) fn compile_wgsl(device: &wgpu::Device, source: String) -> (r: (
    wgpu::ShaderModule,
    Option<String>,
))
{
    let scope = device.push_error_scope(wgpu::ErrorFilter::Validation);
    let module = device.create_shader_module(wgpu::ShaderModuleDescriptor {
        label: None,
        source: wgpu::ShaderSource::Wgsl(source.into()),
    });
    let diagnostic = match pollster::block_on(scope.pop()) {
        Some(wgpu::Error::Validation { description, .. }) => Some(description),
        Some(other) => Some(format!("{other}")),
        None => None,
    };
    (module, diagnostic)
}

/// Relies on `wgpu::Device::create_render_pipeline`: links the fixed vertex
/// stage and a fragment stage against the given layout, targeting `format`
/// with replace blending, back-face culling and a counter-clockwise front
/// face, no depth/stencil, single-sample.
#[verifier::external_body]
pub(crate) fn link_pipeline(
    device: &wgpu::Device,
    layout: &wgpu::PipelineLayout,
    vertex: &wgpu::ShaderModule,
    fragment: &wgpu::ShaderModule,
    format: wgpu::TextureFormat,
) -> (r: wgpu::RenderPipeline)
{
    device.create_render_pipeline(&wgpu::RenderPipelineDescriptor {
        label: None,
        layout: Some(layout),
        vertex: wgpu::VertexState { module: vertex, entry_point: None, compilation_options: Default::default(), buffers: &[] },
        fragment: Some(wgpu::FragmentState { module: fragment, entry_point: None, compilation_options: Default::default(), targets: &[Some(wgpu::ColorTargetState { format, blend: Some(wgpu::BlendState::REPLACE), write_mask: wgpu::ColorWrites::ALL })] }),
        primitive: wgpu::PrimitiveState { front_face: wgpu::FrontFace::Ccw, cull_mode: Some(wgpu::Face::Back), ..Default::default() },
        depth_stencil: None,
        multisample: Default::default(),
        multiview_mask: None,
        cache: None,
    })
}

/// Relies on `wgpu::Device::create_pipeline_layout`: a layout with exactly
/// the two given bind group layouts, in slots 0 and 1, and no push constants.
#[verifier::external_body]
pub(crate) fn create_pipeline_layout(
    device: &wgpu::Device,
    group0: &wgpu::BindGroupLayout,
    group1: &wgpu::BindGroupLayout,
) -> (r: wgpu::PipelineLayout)
{
    device.create_pipeline_layout(&wgpu::PipelineLayoutDescriptor {
        label: None,
        bind_group_layouts: &[Some(group0), Some(group1)],
        immediate_size: 0,
    })
}

/// Relies on `wgpu::Device::create_bind_group_layout` over the given entries.
#[verifier::external_body]
pub(crate) fn create_bind_group_layout(
    device: &wgpu::Device,
    entries: &Vec<wgpu::BindGroupLayoutEntry>,
) -> (r: wgpu::BindGroupLayout)
{
    device.create_bind_group_layout(&wgpu::BindGroupLayoutDescriptor {
        label: None,
        entries,
    })
}

/// Relies on `wgpu::BindGroupLayoutEntry`: a fragment-visible uniform-buffer
/// entry at the given binding index.
#[verifier::external_body]
pub(crate) fn uniform_layout_entry(binding: u32) -> (r: wgpu::BindGroupLayoutEntry)
{
    wgpu::BindGroupLayoutEntry {
        binding,
        visibility: wgpu::ShaderStages::FRAGMENT,
        ty: wgpu::BindingType::Buffer {
            ty: wgpu::BufferBindingType::Uniform,
            has_dynamic_offset: false,
            min_binding_size: None,
        },
        count: None,
    }
}

/// Relies on `wgpu::BindGroupLayoutEntry`: a fragment-visible filterable 2D
/// float-texture entry at the given binding index.
#[verifier::external_body]
pub(crate) fn texture_layout_entry(binding: u32) -> (r: wgpu::BindGroupLayoutEntry)
{
    wgpu::BindGroupLayoutEntry {
        binding,
        visibility: wgpu::ShaderStages::FRAGMENT,
        ty: wgpu::BindingType::Texture {
            sample_type: wgpu::TextureSampleType::Float { filterable: true },
            view_dimension: wgpu::TextureViewDimension::D2,
            multisampled: false,
        },
        count: None,
    }
}

/// Relies on `wgpu::BindGroupLayoutEntry`: a fragment-visible filtering
/// sampler entry at the given binding index.
#[verifier::external_body]
pub(crate) fn sampler_layout_entry(binding: u32) -> (r: wgpu::BindGroupLayoutEntry)
{
    wgpu::BindGroupLayoutEntry {
        binding,
        visibility: wgpu::ShaderStages::FRAGMENT,
        ty: wgpu::BindingType::Sampler(wgpu::SamplerBindingType::Filtering),
        count: None,
    }
}

/// Relies on `wgpu::Device::create_bind_group` over the given entries and
/// layout.
#[verifier::external_body]
pub(crate) fn create_bind_group<'a>(
    device: &wgpu::Device,
    layout: &wgpu::BindGroupLayout,
    entries: Vec<wgpu::BindGroupEntry<'a>>,
) -> (r: wgpu::BindGroup)
{
    device.create_bind_group(&wgpu::BindGroupDescriptor {
        label: None,
        layout,
        entries: &entries,
    })
}

/// Relies on `wgpu::BindGroupEntry` and `wgpu::Buffer::as_entire_binding`:
/// binds the whole buffer at the given binding index.
#[verifier::external_body]
pub(crate) fn buffer_binding_entry<'a>(binding: u32, buffer: &'a wgpu::Buffer) -> (r:
    wgpu::BindGroupEntry<'a>)
{
    wgpu::BindGroupEntry {
        binding,
        resource: buffer.as_entire_binding(),
    }
}

/// Relies on `wgpu::BindGroupEntry`: binds the texture view at the given
/// binding index.
#[verifier::external_body]
pub(crate) fn texture_binding_entry<'a>(binding: u32, view: &'a wgpu::TextureView) -> (r:
    wgpu::BindGroupEntry<'a>)
{
    wgpu::BindGroupEntry {
        binding,
        resource: wgpu::BindingResource::TextureView(view),
    }
}

/// Relies on `wgpu::BindGroupEntry`: binds the sampler at the given binding
/// index.
#[verifier::external_body]
pub(crate) fn sampler_binding_entry<'a>(binding: u32, sampler: &'a wgpu::Sampler) -> (r:
    wgpu::BindGroupEntry<'a>)
{
    wgpu::BindGroupEntry {
        binding,
        resource: wgpu::BindingResource::Sampler(sampler),
    }
}

/// Relies on `wgpu::Device::create_buffer`: a uniform buffer of `size` bytes
/// that copies can update, zero-filled at creation.
#[verifier::external_body]
pub(crate) fn create_uniform_buffer(device: &wgpu::Device, size: u64) -> (r: wgpu::Buffer)
{
    device.create_buffer(&wgpu::BufferDescriptor {
        label: None,
        size,
        usage: wgpu::BufferUsages::UNIFORM | wgpu::BufferUsages::COPY_DST,
        mapped_at_creation: false,
    })
}

/// Relies on `wgpu::Device::create_texture`: a 2D single-sample texture of
/// the given size and format that shaders can sample and copies can fill.
#[verifier::external_body]
pub(crate) fn create_sample_texture(
    device: &wgpu::Device,
    width: u32,
    height: u32,
    format: wgpu::TextureFormat,
) -> (r: wgpu::Texture)
{
    device.create_texture(&wgpu::TextureDescriptor {
        label: None,
        size: wgpu::Extent3d { width, height, depth_or_array_layers: 1 },
        mip_level_count: 1,
        sample_count: 1,
        dimension: wgpu::TextureDimension::D2,
        format,
        usage: wgpu::TextureUsages::TEXTURE_BINDING | wgpu::TextureUsages::COPY_DST,
        view_formats: &[],
    })
}

/// Relies on `wgpu::TextureFormat`: the RGBA8 sRGB format that camera frames
/// are delivered in.
#[verifier::external_body]
pub(crate) fn rgba8_srgb_format() -> (r: wgpu::TextureFormat)
{
    wgpu::TextureFormat::Rgba8UnormSrgb
}

/// Relies on `wgpu::Texture::create_view` with the default view descriptor.
#[verifier::external_body]
pub(crate) fn create_texture_view(texture: &wgpu::Texture) -> (r: wgpu::TextureView)
{
    texture.create_view(&wgpu::TextureViewDescriptor::default())
}

/// Relies on `wgpu::Device::create_sampler`: clamp-to-edge addressing with
/// linear filtering.
#[verifier::external_body]
pub(crate) fn create_linear_sampler(device: &wgpu::Device) -> (r: wgpu::Sampler)
{
    device.create_sampler(&wgpu::SamplerDescriptor {
        address_mode_u: wgpu::AddressMode::ClampToEdge,
        address_mode_v: wgpu::AddressMode::ClampToEdge,
        address_mode_w: wgpu::AddressMode::ClampToEdge,
        mag_filter: wgpu::FilterMode::Linear,
        min_filter: wgpu::FilterMode::Linear,
        ..Default::default()
    })
}

/// Relies on `wgpu::Device::create_sampler`: clamp-to-edge addressing with
/// nearest filtering, for sampling the feedback texture texel-exact.
#[verifier::external_body]
pub(crate) fn create_nearest_sampler(device: &wgpu::Device) -> (r: wgpu::Sampler)
{
    device.create_sampler(&wgpu::SamplerDescriptor {
        address_mode_u: wgpu::AddressMode::ClampToEdge,
        address_mode_v: wgpu::AddressMode::ClampToEdge,
        address_mode_w: wgpu::AddressMode::ClampToEdge,
        mag_filter: wgpu::FilterMode::Nearest,
        min_filter: wgpu::FilterMode::Nearest,
        ..Default::default()
    })
}

/// Relies on `wgpu::Queue::write_buffer` at offset zero.
#[verifier::external_body]
pub(crate) fn write_buffer_start(queue: &wgpu::Queue, buffer: &wgpu::Buffer, data: &[u8])
{
    queue.write_buffer(buffer, 0, data);
}

/// Relies on `wgpu::Queue::write_texture`: overwrites the whole
/// `width` × `height` texture from `data`, origin at (0, 0), rows packed at
/// `bytes_per_row`.
#[verifier::external_body]
pub(crate) fn write_texture_full(
    queue: &wgpu::Queue,
    texture: &wgpu::Texture,
    data: &[u8],
    width: u32,
    height: u32,
    bytes_per_row: u32,
)
{
    queue.write_texture(
        wgpu::TexelCopyTextureInfo {
            texture,
            mip_level: 0,
            origin: wgpu::Origin3d::ZERO,
            aspect: wgpu::TextureAspect::All,
        },
        data,
        wgpu::TexelCopyBufferLayout {
            offset: 0,
            bytes_per_row: Some(bytes_per_row),
            rows_per_image: Some(height),
        },
        wgpu::Extent3d { width, height, depth_or_array_layers: 1 },
    );
}

/// Relies on `wgpu::Device::create_command_encoder`.
#[verifier::external_body]
pub(crate) fn create_command_encoder(device: &wgpu::Device) -> (r: wgpu::CommandEncoder)
{
    device.create_command_encoder(&wgpu::CommandEncoderDescriptor { label: None })
}

/// Relies on `wgpu::Color::WHITE`: opaque white.
#[verifier::external_body]
pub(crate) fn opaque_white() -> (r: wgpu::Color)
{
    wgpu::Color::WHITE
}

/// Relies on `wgpu::CommandEncoder::begin_render_pass`: one color attachment
/// on the given view, cleared to the given color, stored at the end of the
/// pass.
#[verifier::external_body]
pub(crate) fn begin_clear_pass<'e>(
    encoder: &'e mut wgpu::CommandEncoder,
    target: &wgpu::TextureView,
    clear: wgpu::Color,
) -> (r: wgpu::RenderPass<'e>)
{
    encoder.begin_render_pass(&wgpu::RenderPassDescriptor {
        color_attachments: &[Some(wgpu::RenderPassColorAttachment {
            view: target,
            depth_slice: None,
            resolve_target: None,
            ops: wgpu::Operations { load: wgpu::LoadOp::Clear(clear), store: wgpu::StoreOp::Store },
        })],
        ..Default::default()
    })
}

/// Relies on `wgpu::RenderPass::set_pipeline`.
#[verifier::external_body]
pub(crate) fn pass_set_pipeline(pass: &mut wgpu::RenderPass<'_>, pipeline: &wgpu::RenderPipeline)
{
    pass.set_pipeline(pipeline);
}

/// Relies on `wgpu::RenderPass::set_bind_group` with no dynamic offsets.
#[verifier::external_body]
pub(crate) fn pass_set_bind_group(
    pass: &mut wgpu::RenderPass<'_>,
    index: u32,
    group: &wgpu::BindGroup,
)
{
    pass.set_bind_group(index, group, &[]);
}

/// Relies on `wgpu::RenderPass::draw`: `vertices` vertices, one instance, no
/// vertex buffers.
#[verifier::external_body]
pub(crate) fn pass_draw(pass: &mut wgpu::RenderPass<'_>, vertices: u32)
{
    pass.draw(0..vertices, 0..1);
}

/// Relies on `wgpu::CommandEncoder::copy_texture_to_texture`: copies the full
/// `width` × `height` extent from `source` to `destination`, origins at
/// (0, 0).
#[verifier::external_body]
pub(crate) fn copy_texture_full(
    encoder: &mut wgpu::CommandEncoder,
    source: &wgpu::Texture,
    destination: &wgpu::Texture,
    width: u32,
    height: u32,
)
{
    encoder.copy_texture_to_texture(
        wgpu::TexelCopyTextureInfo {
            texture: source,
            mip_level: 0,
            origin: wgpu::Origin3d::ZERO,
            aspect: wgpu::TextureAspect::All,
        },
        wgpu::TexelCopyTextureInfo {
            texture: destination,
            mip_level: 0,
            origin: wgpu::Origin3d::ZERO,
            aspect: wgpu::TextureAspect::All,
        },
        wgpu::Extent3d { width, height, depth_or_array_layers: 1 },
    );
}

/// Relies on `wgpu::CommandEncoder::finish`.
#[verifier::external_body]
pub(crate) fn finish_encoder(encoder: wgpu::CommandEncoder) -> (r: wgpu::CommandBuffer)
{
    encoder.finish()
}

/// Relies on `wgpu::Queue::submit` with a single command buffer.
#[verifier::external_body]
pub(crate) fn submit_one(queue: &wgpu::Queue, commands: wgpu::CommandBuffer)
{
    queue.submit([commands]);
}

/// Relies on `wgpu::Queue::present`.
#[verifier::external_body]
pub(crate) fn present_frame(queue: &wgpu::Queue, frame: wgpu::SurfaceTexture)
{
    queue.present(frame);
}

/// Relies on `wgpu::Surface::get_current_texture`: converts each variant of
/// the acquisition result to the matching [`AcquiredFrame`] variant, moving
/// the acquired image where there is one.
#[verifier::external_body]
pub(crate) fn acquire_frame(surface: &wgpu::Surface<'_>) -> (r: AcquiredFrame)
{
    match surface.get_current_texture() {
        wgpu::CurrentSurfaceTexture::Success(t) => AcquiredFrame::Ready(t),
        wgpu::CurrentSurfaceTexture::Suboptimal(t) => AcquiredFrame::Suboptimal(t),
        wgpu::CurrentSurfaceTexture::Timeout => AcquiredFrame::Timeout,
        wgpu::CurrentSurfaceTexture::Occluded => AcquiredFrame::Occluded,
        wgpu::CurrentSurfaceTexture::Outdated => AcquiredFrame::Outdated,
        wgpu::CurrentSurfaceTexture::Lost => AcquiredFrame::Lost,
        wgpu::CurrentSurfaceTexture::Validation => AcquiredFrame::ValidationFailed,
    }
}

/// Relies on the public `texture` field of `wgpu::SurfaceTexture`.
#[verifier::external_body]
pub(crate) fn surface_texture_inner(frame: &wgpu::SurfaceTexture) -> (r: &wgpu::Texture)
{
    &frame.texture
}

/// Relies on `wgpu::Surface::configure`.
#[verifier::external_body]
pub(crate) fn configure_surface(
    surface: &wgpu::Surface<'_>,
    device: &wgpu::Device,
    config: &wgpu::SurfaceConfiguration,
)
{
    surface.configure(device, config);
}

/// Relies on the public `width` and `height` fields of
/// `wgpu::SurfaceConfiguration`: sets both.
#[verifier::external_body]
pub(crate) fn set_config_size(config: &mut wgpu::SurfaceConfiguration, width: u32, height: u32)
{
    config.width = width;
    config.height = height;
}

/// Relies on the public `format` field of `wgpu::SurfaceConfiguration` and on
/// `wgpu::TextureFormat` being `Copy`.
#[verifier::external_body]
pub(crate) fn config_format(config: &wgpu::SurfaceConfiguration) -> (r: wgpu::TextureFormat)
{
    config.format
}

} // verus!
