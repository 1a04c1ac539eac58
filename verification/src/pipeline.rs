//! The pipeline controller: owns the active render pipeline and performs the
//! compile-validate-link-commit sequence of a hot swap.
//!
//! A compile attempt never touches the active pipeline until its final step:
//! the fragment source is first checked against the binding contract, then
//! compiled with the device's validation diagnostics collected in a
//! [`ValidationLog`]; only when the drained log is empty is a new pipeline
//! linked and committed. On any failure the previously active pipeline is
//! left exactly as it was, and every collected diagnostic is handed back to
//! the caller.
//!
//! The pipeline layout, the fixed vertex stage, the target format and the
//! device never change over the controller's lifetime; a commit replaces the
//! pipeline handle alone.

use vstd::prelude::*;
use vstd::string::*;
use crate::gpu;
use crate::shader;
use crate::validation::{ValidationError, ValidationLog};

verus! {

/// The controller for the active render pipeline.
pub struct RenderPipelineContext {
    device: wgpu::Device,
    pipeline: wgpu::RenderPipeline,
    pipeline_layout: wgpu::PipelineLayout,
    vertex_module: wgpu::ShaderModule,
    format: wgpu::TextureFormat,
    generation: Ghost<nat>,
}

/// The commit decision of one compile attempt: the diagnostic the device
/// reported (if any) is recorded in a fresh validation log, the log is
/// drained, and the attempt may go on to link and commit if and only if the
/// drained log was empty. On a non-empty log every drained message comes
/// back, in order.
pub fn compile_verdict(diagnostic: Option<String>) -> (r: Result<(), Vec<String>>)
    ensures
        r is Ok <==> diagnostic is None,
        r matches Err(msgs) ==> msgs@.len() >= 1,
        diagnostic matches Some(d) ==> (r matches Err(msgs) && msgs@.len() == 1 && msgs@[0]@
            == d@),
{
    let mut log = ValidationLog::new();
    match diagnostic {
        Some(d) => log.record(ValidationError::new(d)),
        None => {},
    }
    if log.len() > 0 {
        let drained = log.drain();
        let mut msgs: Vec<String> = Vec::new();
        let mut i: usize = 0;
        while i < drained.len()
            invariant
                i <= drained@.len(),
                msgs@.len() == i,
                forall|k: int| 0 <= k < i ==> #[trigger] msgs@[k]@ == drained@[k]@,
            decreases drained@.len() - i,
        {
            msgs.push(drained[i].message().clone());
            i += 1;
        }
        proof {
            assert(drained@.map_values(|e: ValidationError| e@)[0] == drained@[0]@);
        }
        return Err(msgs);
    }
    Ok(())
}

impl RenderPipelineContext {
    /// The currently active pipeline handle.
    pub closed spec fn active(&self) -> wgpu::RenderPipeline {
        self.pipeline
    }

    /// How many commits have replaced the pipeline since startup; each
    /// successful hot swap moves the controller to the next generation.
    pub closed spec fn generation(&self) -> nat {
        self.generation@
    }

    /// The fixed pipeline layout, created once and never replaced.
    pub closed spec fn layout_of(&self) -> wgpu::PipelineLayout {
        self.pipeline_layout
    }

    /// The target surface format.
    pub closed spec fn surface_format(&self) -> wgpu::TextureFormat {
        self.format
    }

    /// The device the controller compiles and links on.
    pub closed spec fn device_of(&self) -> wgpu::Device {
        self.device
    }

    /// Build the controller: compile the fixed vertex stage once, compile
    /// the starting fragment source, and link the first pipeline against the
    /// fixed layout. Fails with the collected diagnostics if either starting
    /// stage does not validate.
    pub fn new(
        device: wgpu::Device,
        format: wgpu::TextureFormat,
        group0_layout: &wgpu::BindGroupLayout,
        group1_layout: &wgpu::BindGroupLayout,
    ) -> (r: Result<Self, Vec<String>>)
        ensures
            r matches Ok(ctx) ==> {
                &&& ctx.generation() == 0
                &&& ctx.surface_format() == format
                &&& ctx.device_of() == device
            },
            r matches Err(msgs) ==> msgs@.len() >= 1,
    {
        let layout = gpu::create_pipeline_layout(&device, group0_layout, group1_layout);
        let (vertex_module, vertex_diag) = gpu::compile_wgsl(
            &device,
            String::from_str(shader::vertex_source_text()),
        );
        if let Some(d) = vertex_diag {
            let mut msgs: Vec<String> = Vec::new();
            msgs.push(d);
            return Err(msgs);
        }
        let composed = shader::compose_source(shader::default_fragment_text());
        let (fragment_module, fragment_diag) = gpu::compile_wgsl(&device, composed);
        if let Some(d) = fragment_diag {
            let mut msgs: Vec<String> = Vec::new();
            msgs.push(d);
            return Err(msgs);
        }
        let pipeline = gpu::link_pipeline(&device, &layout, &vertex_module, &fragment_module, format);
        Ok(
            RenderPipelineContext {
                device,
                pipeline,
                pipeline_layout: layout,
                vertex_module,
                format,
                generation: Ghost(0),
            },
        )
    }

    /// Borrow the active pipeline for the duration of one render pass.
    pub fn active_pipeline(&self) -> (r: &wgpu::RenderPipeline)
        ensures
            *r == self.active(),
    {
        &self.pipeline
    }

    /// One compile attempt, short of the commit: reject source that declares
    /// a reserved binding, compose it with the prelude, compile it, drain
    /// the validation log, and link a candidate pipeline only if the log was
    /// empty. Needs no exclusive access to the controller; the active
    /// pipeline is untouched.
    ///
    /// Whether a syntactically binding-clean source validates is the
    /// device's decision; nothing is promised about which sources yield a
    /// candidate, but every failure carries at least one diagnostic, and
    /// [`compile_verdict`]'s contract pins the decision itself: a candidate
    /// is linked if and only if the drained log was empty.
    pub fn compile_candidate(&self, user_source: &str) -> (r: Result<
        wgpu::RenderPipeline,
        Vec<String>,
    >)
        ensures
            shader::declares_binding(user_source@) ==> r is Err,
            r matches Err(msgs) ==> msgs@.len() >= 1,
    {
        if shader::user_declares_binding(user_source) {
            let mut msgs: Vec<String> = Vec::new();
            msgs.push(
                String::from_str(
                    "fragment source declares a reserved binding; the prelude owns every @group declaration",
                ),
            );
            return Err(msgs);
        }
        let composed = shader::compose_source(user_source);
        let (fragment_module, diagnostic) = gpu::compile_wgsl(&self.device, composed);
        if let Err(msgs) = compile_verdict(diagnostic) {
            return Err(msgs);
        }
        Ok(
            gpu::link_pipeline(
                &self.device,
                &self.pipeline_layout,
                &self.vertex_module,
                &fragment_module,
                self.format,
            ),
        )
    }

    /// Atomically replace the active pipeline with a linked candidate. This
    /// is the only step of a hot swap that needs exclusive access, and it
    /// replaces the pipeline handle alone: layout, vertex stage, format and
    /// device stay as they were.
    pub fn commit(&mut self, candidate: wgpu::RenderPipeline)
        ensures
            final(self).active() == candidate,
            final(self).generation() == old(self).generation() + 1,
            final(self).layout_of() == old(self).layout_of(),
            final(self).surface_format() == old(self).surface_format(),
            final(self).device_of() == old(self).device_of(),
    {
        self.pipeline = candidate;
        self.generation = Ghost(self.generation@ + 1);
    }

    /// One whole hot-swap attempt: compile a candidate from `user_source`
    /// and commit it if and only if validation reported nothing. On failure
    /// the controller is left exactly as it was — same active pipeline, same
    /// generation — and the returned diagnostics are never empty.
    pub fn rebuild_pipeline(&mut self, user_source: &str) -> (r: Result<(), Vec<String>>)
        ensures
            shader::declares_binding(user_source@) ==> r is Err,
            r matches Err(msgs) ==> {
                &&& msgs@.len() >= 1
                &&& *final(self) == *old(self)
            },
            r is Ok ==> final(self).generation() == old(self).generation() + 1,
            final(self).layout_of() == old(self).layout_of(),
            final(self).surface_format() == old(self).surface_format(),
            final(self).device_of() == old(self).device_of(),
    {
        match self.compile_candidate(user_source) {
            Ok(candidate) => {
                self.commit(candidate);
                Ok(())
            },
            Err(msgs) => Err(msgs),
        }
    }
}

} // verus!
