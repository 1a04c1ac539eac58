//! The frame scheduler: owns every per-frame-mutated resource — surface,
//! queue, uniform buffers, camera texture and feedback buffer — and produces
//! exactly one rendered and presented frame per successful [`App::render`]
//! call.
//!
//! The active pipeline is the one resource it does not own: a render pass
//! borrows it from the [`RenderPipelineContext`] for the duration of one
//! frame, so a concurrent hot swap is observable only from the next frame
//! onward.
//!
//! Ghost state tracks the total number of presented frames, which frame's
//! output the feedback texture holds, what the most recent pass sampled and
//! which pipeline generation it used; the contracts on [`App::render`] pin
//! the feedback delay to exactly one frame and the counter step to exactly
//! one.

use vstd::prelude::*;
use crate::backbuffer::BackBuffer;
use crate::gpu;
use crate::gpu::AcquiredFrame;
use crate::pipeline::RenderPipelineContext;
use crate::uniforms;

verus! {

/// What one `render` call came to.
pub enum FrameOutcome {
    /// A frame was drawn, copied into the feedback buffer and presented.
    Presented,
    /// A transient acquisition failure; skip this tick and retry on the
    /// next.
    SkippedRetry,
    /// The surface was lost; it has been reconfigured, skip this tick and
    /// retry on the next.
    SkippedReconfigured,
}

/// The sizing state a resize may change, for stating that resizing is
/// idempotent.
#[derive(PartialEq, Eq, Structural)]
pub struct SizeModel {
    pub width: u32,
    pub height: u32,
    pub feedback_cleared: bool,
}

/// What a reconfigure/rebuild request does to the sizing state: nothing at
/// all if either dimension is zero (a minimized window), otherwise the new
/// size is adopted and the feedback texture starts over cleared.
pub open spec fn apply_resize(m: SizeModel, width: u32, height: u32) -> SizeModel {
    if width == 0 || height == 0 {
        m
    } else {
        SizeModel { width, height, feedback_cleared: true }
    }
}

/// The frame scheduler and its per-frame resources.
pub struct App {
    surface: wgpu::Surface<'static>,
    device: wgpu::Device,
    queue: wgpu::Queue,
    config: wgpu::SurfaceConfiguration,
    width: u32,
    height: u32,
    unif_bind_group: wgpu::BindGroup,
    backbuffer: BackBuffer,
    res_buffer_unif: wgpu::Buffer,
    frame_unif: wgpu::Buffer,
    frame: u32,
    camera_texture: wgpu::Texture,
    camera_dims: (u32, u32),
    camera_content: Ghost<Option<Seq<u8>>>,
    frames_presented: Ghost<nat>,
    last_sampled: Ghost<Option<Option<nat>>>,
    observed_generation: Ghost<Option<nat>>,
}

impl App {
    pub closed spec fn width(&self) -> u32 {
        self.width
    }

    pub closed spec fn height(&self) -> u32 {
        self.height
    }

    /// The wrapped 32-bit frame counter the shader observes.
    pub closed spec fn frame_index(&self) -> u32 {
        self.frame
    }

    /// The total number of frames presented since startup, unwrapped.
    pub closed spec fn frames_presented(&self) -> nat {
        self.frames_presented@
    }

    /// The feedback buffer's model state.
    pub closed spec fn backbuffer(&self) -> BackBuffer {
        self.backbuffer
    }

    /// The camera texture's fixed dimensions, set once at startup.
    pub closed spec fn camera_dims(&self) -> (u32, u32) {
        self.camera_dims
    }

    /// What the camera texture holds: `None` while it is still in its
    /// zero-filled startup state, `Some` of the raw RGBA bytes of the most
    /// recently uploaded frame.
    pub closed spec fn camera_content(&self) -> Option<Seq<u8>> {
        self.camera_content@
    }

    /// What the most recent presented pass sampled as feedback: `None`
    /// before any frame was presented, otherwise `Some` of the feedback
    /// content that pass was given.
    pub closed spec fn last_sampled(&self) -> Option<Option<nat>> {
        self.last_sampled@
    }

    /// The pipeline generation the most recent presented pass drew with.
    pub closed spec fn observed_generation(&self) -> Option<nat> {
        self.observed_generation@
    }

    /// The sizing state, for the resize-idempotence law.
    pub open spec fn size_model(&self) -> SizeModel {
        SizeModel {
            width: self.width(),
            height: self.height(),
            feedback_cleared: self.backbuffer().holds() is None,
        }
    }

    /// Well-formedness: the surface size is nonzero (it is configured) and
    /// small enough that each dimension is exact in a single-precision
    /// float; the feedback buffer always matches the surface size; the
    /// 32-bit counter is the wrapped image of the total frame count; and
    /// whenever the feedback texture holds a frame, it is exactly the most
    /// recently presented one.
    pub open spec fn wf(&self) -> bool {
        &&& 0 < self.width() < 0x1000000
        &&& 0 < self.height() < 0x1000000
        &&& 0 < self.camera_dims().0 <= 0x4000
        &&& 0 < self.camera_dims().1 <= 0x4000
        &&& self.backbuffer().width() == self.width()
        &&& self.backbuffer().height() == self.height()
        &&& self.frame_index() as nat == self.frames_presented() % 0x100000000
        &&& (self.backbuffer().holds() matches Some(k) ==> k + 1 == self.frames_presented())
    }

    /// Set up every frame resource on an already-acquired device and
    /// surface: configure the surface to the window size, create the
    /// uniform buffers, the camera texture and its bind group, bootstrap
    /// the feedback buffer, and build the pipeline controller with its
    /// fixed layout and starting stages.
    ///
    /// Fails only if a starting shader stage fails validation, with the
    /// diagnostics; the caller cannot continue in that case.
    pub fn new(
        device: wgpu::Device,
        queue: wgpu::Queue,
        surface: wgpu::Surface<'static>,
        config: wgpu::SurfaceConfiguration,
        width: u32,
        height: u32,
        camera_dims: (u32, u32),
    ) -> (r: Result<(App, RenderPipelineContext), Vec<String>>)
        requires
            0 < width < 0x1000000,
            0 < height < 0x1000000,
            0 < camera_dims.0 <= 0x4000,
            0 < camera_dims.1 <= 0x4000,
        ensures
            r matches Ok(pair) ==> {
                &&& pair.0.wf()
                &&& pair.0.width() == width
                &&& pair.0.height() == height
                &&& pair.0.camera_dims() == camera_dims
                &&& pair.0.frame_index() == 0
                &&& pair.0.frames_presented() == 0
                &&& pair.0.backbuffer().holds() is None
                &&& pair.0.backbuffer().format_of() == pair.1.surface_format()
                &&& pair.0.camera_content() is None
                &&& pair.0.last_sampled() is None
                &&& pair.0.observed_generation() is None
                &&& pair.1.generation() == 0
            },
            r matches Err(msgs) ==> msgs@.len() >= 1,
    {
        let mut config = config;
        gpu::set_config_size(&mut config, width, height);
        gpu::configure_surface(&surface, &device, &config);
        let format = gpu::config_format(&config);

        let camera_texture = gpu::create_sample_texture(
            &device,
            camera_dims.0,
            camera_dims.1,
            gpu::rgba8_srgb_format(),
        );
        let camera_view = gpu::create_texture_view(&camera_texture);
        let camera_sampler = gpu::create_linear_sampler(&device);

        let res_buffer_unif = gpu::create_uniform_buffer(&device, 8);
        let frame_unif = gpu::create_uniform_buffer(&device, 4);

        let mut unif_layout_entries: Vec<wgpu::BindGroupLayoutEntry> = Vec::new();
        unif_layout_entries.push(gpu::uniform_layout_entry(0));
        unif_layout_entries.push(gpu::uniform_layout_entry(1));
        unif_layout_entries.push(gpu::texture_layout_entry(2));
        unif_layout_entries.push(gpu::sampler_layout_entry(3));
        let unif_bind_group_layout = gpu::create_bind_group_layout(&device, &unif_layout_entries);

        let mut unif_entries: Vec<wgpu::BindGroupEntry> = Vec::new();
        unif_entries.push(gpu::buffer_binding_entry(0, &res_buffer_unif));
        unif_entries.push(gpu::buffer_binding_entry(1, &frame_unif));
        unif_entries.push(gpu::texture_binding_entry(2, &camera_view));
        unif_entries.push(gpu::sampler_binding_entry(3, &camera_sampler));
        let unif_bind_group = gpu::create_bind_group(&device, &unif_bind_group_layout, unif_entries);

        let backbuffer = BackBuffer::new(&device, width, height, format);

        let rpcontext = match RenderPipelineContext::new(
            gpu::clone_device(&device),
            format,
            &unif_bind_group_layout,
            backbuffer.bind_group_layout(),
        ) {
            Ok(ctx) => ctx,
            Err(msgs) => {
                return Err(msgs);
            },
        };

        let app = App {
            surface,
            device,
            queue,
            config,
            width,
            height,
            unif_bind_group,
            backbuffer,
            res_buffer_unif,
            frame_unif,
            frame: 0,
            camera_texture,
            camera_dims,
            camera_content: Ghost(None),
            frames_presented: Ghost(0),
            last_sampled: Ghost(None),
            observed_generation: Ghost(None),
        };
        Ok((app, rpcontext))
    }

    /// Adopt a new window size: a no-op if either dimension is zero,
    /// otherwise the surface is reconfigured synchronously and the feedback
    /// buffer rebuilt at the new size, before the next frame can begin.
    pub fn resize(&mut self, new_width: u32, new_height: u32)
        requires
            old(self).wf(),
            new_width < 0x1000000,
            new_height < 0x1000000,
        ensures
            final(self).wf(),
            final(self).size_model() == apply_resize(old(self).size_model(), new_width, new_height),
            (new_width == 0 || new_height == 0) ==> *final(self) == *old(self),
            final(self).backbuffer().format_of() == old(self).backbuffer().format_of(),
            final(self).backbuffer().layout_of() == old(self).backbuffer().layout_of(),
            final(self).frame_index() == old(self).frame_index(),
            final(self).frames_presented() == old(self).frames_presented(),
            final(self).camera_dims() == old(self).camera_dims(),
            final(self).camera_content() == old(self).camera_content(),
            final(self).last_sampled() == old(self).last_sampled(),
            final(self).observed_generation() == old(self).observed_generation(),
    {
        if new_width > 0 && new_height > 0 {
            self.width = new_width;
            self.height = new_height;
            gpu::set_config_size(&mut self.config, new_width, new_height);
            gpu::configure_surface(&self.surface, &self.device, &self.config);
            self.backbuffer.rebuild(&self.device, new_width, new_height);
        }
    }

    /// Overwrite the camera texture with the latest raw RGBA frame, in one
    /// full-texture upload: origin (0, 0), rows packed at width × 4 bytes.
    /// The buffer must hold exactly width × height × 4 bytes — delivering
    /// that is the capture collaborator's contract. Nothing else of the
    /// scheduler changes.
    pub fn update_camera(&mut self, pixels: &[u8])
        requires
            old(self).wf(),
            pixels@.len() == old(self).camera_dims().0 * old(self).camera_dims().1 * 4,
        ensures
            final(self).camera_content() == Some(pixels@),
            final(self).width() == old(self).width(),
            final(self).height() == old(self).height(),
            final(self).frame_index() == old(self).frame_index(),
            final(self).frames_presented() == old(self).frames_presented(),
            final(self).backbuffer() == old(self).backbuffer(),
            final(self).camera_dims() == old(self).camera_dims(),
            final(self).last_sampled() == old(self).last_sampled(),
            final(self).observed_generation() == old(self).observed_generation(),
            final(self).wf(),
    {
        let bytes_per_row = 4 * self.camera_dims.0;
        gpu::write_texture_full(
            &self.queue,
            &self.camera_texture,
            pixels,
            self.camera_dims.0,
            self.camera_dims.1,
            bytes_per_row,
        );
        self.camera_content = Ghost(Some(pixels@));
    }

    /// Reserved for per-tick state updates; the scheduler currently has
    /// none.
    pub fn update(&mut self)
        ensures
            *final(self) == *old(self),
    {
    }

    /// Record, submit and present one frame onto an acquired surface image.
    fn draw_and_present(&mut self, frame_tex: wgpu::SurfaceTexture, rp: &RenderPipelineContext)
        requires
            old(self).wf(),
        ensures
            final(self).wf(),
            final(self).width() == old(self).width(),
            final(self).height() == old(self).height(),
            final(self).camera_dims() == old(self).camera_dims(),
            final(self).camera_content() == old(self).camera_content(),
            final(self).frames_presented() == old(self).frames_presented() + 1,
            final(self).frame_index() as nat == uniforms::next_frame_index(
                old(self).frame_index() as nat,
            ),
            final(self).backbuffer().holds() == Some(old(self).frames_presented()),
            final(self).last_sampled() == Some(old(self).backbuffer().holds()),
            final(self).observed_generation() == Some(rp.generation()),
    {
        let res_bytes = uniforms::resolution_uniform_bytes(self.width, self.height);
        gpu::write_buffer_start(&self.queue, &self.res_buffer_unif, res_bytes.as_slice());
        let frame_bytes = uniforms::frame_uniform_bytes(self.frame);
        gpu::write_buffer_start(&self.queue, &self.frame_unif, frame_bytes.as_slice());
        self.frame = uniforms::advance_frame_index(self.frame);

        let view = gpu::create_texture_view(gpu::surface_texture_inner(&frame_tex));
        let mut encoder = gpu::create_command_encoder(&self.device);
        {
            let mut pass = gpu::begin_clear_pass(&mut encoder, &view, gpu::opaque_white());
            gpu::pass_set_pipeline(&mut pass, rp.active_pipeline());
            gpu::pass_set_bind_group(&mut pass, 0, &self.unif_bind_group);
            gpu::pass_set_bind_group(&mut pass, 1, self.backbuffer.bind_group());
            gpu::pass_draw(&mut pass, 6);
        }
        gpu::copy_texture_full(
            &mut encoder,
            gpu::surface_texture_inner(&frame_tex),
            self.backbuffer.texture(),
            self.width,
            self.height,
        );
        let commands = gpu::finish_encoder(encoder);
        gpu::submit_one(&self.queue, commands);
        gpu::present_frame(&self.queue, frame_tex);

        self.last_sampled = Ghost(Some(self.backbuffer.holds()));
        self.backbuffer.note_copied(Ghost(self.frames_presented@));
        self.frames_presented = Ghost(self.frames_presented@ + 1);
        self.observed_generation = Ghost(Some(rp.generation()));
    }

    /// Produce at most one rendered and presented frame: acquire the next
    /// surface image; on success write the resolution and frame-counter
    /// uniforms, advance the counter, draw the full-screen quad with the
    /// currently active pipeline and the feedback bind group, copy the
    /// freshly rendered image into the feedback texture for the next frame,
    /// submit and present.
    ///
    /// A presented frame samples exactly the feedback content left by the
    /// previous frame and advances the counter by exactly one; a skipped
    /// frame changes nothing. Losing the surface reconfigures it (at the
    /// unchanged size) before the next tick retries.
    pub fn render(&mut self, rp: &RenderPipelineContext) -> (r: FrameOutcome)
        requires
            old(self).wf(),
        ensures
            final(self).wf(),
            final(self).width() == old(self).width(),
            final(self).height() == old(self).height(),
            final(self).camera_dims() == old(self).camera_dims(),
            final(self).camera_content() == old(self).camera_content(),
            match r {
                FrameOutcome::Presented => {
                    &&& final(self).frames_presented() == old(self).frames_presented() + 1
                    &&& final(self).frame_index() as nat == uniforms::next_frame_index(
                        old(self).frame_index() as nat,
                    )
                    &&& final(self).backbuffer().holds() == Some(old(self).frames_presented())
                    &&& final(self).last_sampled() == Some(old(self).backbuffer().holds())
                    &&& final(self).observed_generation() == Some(rp.generation())
                },
                FrameOutcome::SkippedRetry => *final(self) == *old(self),
                FrameOutcome::SkippedReconfigured => *final(self) == *old(self),
            },
    {
        match gpu::acquire_frame(&self.surface) {
            AcquiredFrame::Ready(frame_tex) => {
                self.draw_and_present(frame_tex, rp);
                FrameOutcome::Presented
            },
            AcquiredFrame::Suboptimal(frame_tex) => {
                self.draw_and_present(frame_tex, rp);
                FrameOutcome::Presented
            },
            AcquiredFrame::Timeout => FrameOutcome::SkippedRetry,
            AcquiredFrame::Occluded => FrameOutcome::SkippedRetry,
            AcquiredFrame::ValidationFailed => FrameOutcome::SkippedRetry,
            AcquiredFrame::Outdated => FrameOutcome::SkippedRetry,
            AcquiredFrame::Lost => {
                gpu::configure_surface(&self.surface, &self.device, &self.config);
                FrameOutcome::SkippedReconfigured
            },
        }
    }

    /// The current surface size.
    pub fn size(&self) -> (r: (u32, u32))
        ensures
            r == (self.width(), self.height()),
    {
        (self.width, self.height)
    }

    /// The camera texture's fixed dimensions.
    pub fn camera_size(&self) -> (r: (u32, u32))
        ensures
            r == self.camera_dims(),
    {
        self.camera_dims
    }

    /// The wrapped frame counter the next frame will be numbered with.
    pub fn frame_counter(&self) -> (r: u32)
        ensures
            r == self.frame_index(),
    {
        self.frame
    }
}

} // verus!
