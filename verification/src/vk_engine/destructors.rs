//! Teardown: what the engine destroys, and in which order.
//!
//! Nothing here touches the device. Each function gives up what the engine
//! holds and returns the steps that release it; the host carries them out
//! in order.

use crate::vk;
use crate::vk_compute::ComputeEffect;
use crate::vk_engine::frame_data::{FrameData, FRAME_OVERLAP};
use crate::vk_engine::VulkanEngine;
use crate::vk_loader::MeshAsset;
use crate::vk_types::{count_frees, Release};
use vstd::prelude::*;

verus! {

/// The steps that release live meshes, one mesh after the other.
pub open spec fn meshes_release(meshes: Seq<MeshAsset>) -> Seq<Release>
    decreases meshes.len(),
{
    if meshes.len() == 0 {
        Seq::empty()
    } else {
        meshes_release(meshes.drop_last()) + meshes.last().mesh_buffers.release_steps()
    }
}

/// The steps that destroy image views, in order.
pub open spec fn views_release(views: Seq<vk::Handle>) -> Seq<Release> {
    Seq::new(views.len(), |i: int| Release::DestroyImageView(views[i]))
}

/// The steps that destroy the pipelines of effects, in order.
pub open spec fn pipelines_release(effects: Seq<ComputeEffect>) -> Seq<Release> {
    Seq::new(effects.len(), |i: int| Release::DestroyPipeline(effects[i].pipeline))
}

/// The steps that destroy what one frame slot owns. The command buffer goes
/// with its pool.
pub open spec fn frame_release(frame: FrameData) -> Seq<Release> {
    seq![
        Release::DestroyCommandPool(frame.command_pool),
        Release::DestroyFence(frame.render_fence),
        Release::DestroySemaphore(frame.render_semaphore),
        Release::DestroySemaphore(frame.swapchain_semaphore),
    ]
}

/// The steps that destroy what frame slots own, slot after slot.
pub open spec fn frames_release(frames: Seq<FrameData>) -> Seq<Release>
    decreases frames.len(),
{
    if frames.len() == 0 {
        Seq::empty()
    } else {
        frames_release(frames.drop_last()) + frame_release(frames.last())
    }
}

/// The mesh `was` with the memory of both buffers given up and nothing
/// else changed.
pub open spec fn released(was: MeshAsset, now: MeshAsset) -> bool {
    now == (MeshAsset { mesh_buffers: was.mesh_buffers.emptied(), ..was })
}

/// Frees add up over steps put one after the other.
pub proof fn lemma_count_frees_concat(a: Seq<Release>, b: Seq<Release>)
    ensures
        count_frees(a + b) == count_frees(a) + count_frees(b),
    decreases b.len(),
{
    if b.len() == 0 {
        assert(a + b =~= a);
    } else {
        assert((a + b).drop_last() =~= a + b.drop_last());
        assert((a + b).last() == b.last());
        lemma_count_frees_concat(a, b.drop_last());
    }
}

/// Steps that destroy handles free no memory.
proof fn lemma_no_frees(steps: Seq<Release>)
    requires
        forall|i: int| 0 <= i < steps.len() ==> !(#[trigger] steps[i] is FreeMemory),
    ensures
        count_frees(steps) == 0,
    decreases steps.len(),
{
    if steps.len() > 0 {
        assert(!(steps[steps.len() - 1] is FreeMemory));
        assert forall|i: int| 0 <= i < steps.drop_last().len() implies !(
        #[trigger] steps.drop_last()[i] is FreeMemory) by {
            assert(steps.drop_last()[i] == steps[i]);
        }
        lemma_no_frees(steps.drop_last());
    }
}

/// Releasing meshes frees two allocations for each mesh.
pub proof fn lemma_meshes_release_frees(meshes: Seq<MeshAsset>)
    ensures
        count_frees(meshes_release(meshes)) == 2 * meshes.len(),
    decreases meshes.len(),
{
    if meshes.len() > 0 {
        lemma_meshes_release_frees(meshes.drop_last());
        let last = meshes.last().mesh_buffers.release_steps();
        lemma_count_frees_concat(meshes_release(meshes.drop_last()), last);
        lemma_buffer_pair_frees(meshes.last());
    }
}

proof fn lemma_buffer_pair_frees(mesh: MeshAsset)
    ensures
        count_frees(mesh.mesh_buffers.release_steps()) == 2,
{
    let s = mesh.mesh_buffers.release_steps();
    assert(s.len() == 4);
    let s3 = s.drop_last();
    let s2 = s3.drop_last();
    let s1 = s2.drop_last();
    let s0 = s1.drop_last();
    assert(s0.len() == 0);
    assert(count_frees(s0) == 0);
    assert(s1.last() is DestroyBuffer);
    assert(count_frees(s1) == 0);
    assert(s2.last() is FreeMemory);
    assert(count_frees(s2) == 1);
    assert(s3.last() is DestroyBuffer);
    assert(count_frees(s3) == 1);
    assert(s.last() is FreeMemory);
}

proof fn lemma_image_frees(steps: Seq<Release>)
    requires
        steps.len() == 3,
        steps[0] is DestroyImageView,
        steps[1] is DestroyImage,
        steps[2] is FreeMemory,
    ensures
        count_frees(steps) == 1,
{
    let s2 = steps.drop_last();
    let s1 = s2.drop_last();
    let s0 = s1.drop_last();
    assert(s0.len() == 0);
    assert(count_frees(s0) == 0);
    assert(s1.last() == steps[0]);
    assert(count_frees(s1) == 0);
    assert(s2.last() == steps[1]);
    assert(count_frees(s2) == 0);
    assert(steps.last() == steps[2]);
}

impl VulkanEngine {
    /// The steps that release the swapchain, the views of its images and
    /// the two render targets of a live engine.
    pub open spec fn swapchain_release(self) -> Seq<Release> {
        seq![Release::DestroySwapchain(self.swapchain)] + views_release(
            self.swapchain_image_views@,
        ) + self.draw_image.release_steps(self.draw_image.allocation.value->Some_0)
            + self.depth_image.release_steps(self.depth_image.allocation.value->Some_0)
    }

    /// The steps that destroy the background effects: the layout that they
    /// share, then each pipeline.
    pub open spec fn effects_release(self) -> Seq<Release> {
        seq![Release::DestroyPipelineLayout(self.background_effects@[0].layout)]
            + pipelines_release(self.background_effects@)
    }

    /// The steps that destroy the mesh pipeline: layout, then pipeline.
    pub open spec fn graphics_release(self) -> Seq<Release> {
        seq![
            Release::DestroyPipelineLayout(self.mesh_pipeline_layout),
            Release::DestroyPipeline(self.mesh_pipeline),
        ]
    }

    /// The steps that destroy the descriptor set layout and the pool that
    /// the sets came from.
    pub open spec fn descriptors_release(self) -> Seq<Release> {
        seq![
            Release::DestroyDescriptorSetLayout(self.draw_image_descriptor_layout),
            Release::DestroyDescriptorPool(self.global_descriptor_allocator.pool),
        ]
    }

    /// The steps that destroy what serves submissions outside the frame
    /// loop, and the descriptor pool of the overlay.
    pub open spec fn immediate_release(self) -> Seq<Release> {
        seq![
            Release::DestroyFence(self.immediate_fence),
            Release::DestroyCommandPool(self.immediate_command_pool),
            Release::DestroyDescriptorPool(self.imgui_pool),
        ]
    }

    /// Gives up the swapchain and the render targets, and returns the
    /// steps that release them.
    ///
    /// The render targets must own their memory: a swapchain is given up
    /// once.
    pub fn destroy_swapchain(&mut self) -> (steps: Vec<Release>)
        requires
            old(self).draw_image.allocation.is_set(),
            old(self).depth_image.allocation.is_set(),
        ensures
            steps@ == old(self).swapchain_release(),
            *final(self) == (VulkanEngine {
                draw_image: old(self).draw_image.emptied(),
                depth_image: old(self).depth_image.emptied(),
                ..*old(self)
            }),
    {
        let mut steps: Vec<Release> = Vec::new();
        steps.push(Release::DestroySwapchain(self.swapchain));
        let mut i: usize = 0;
        while i < self.swapchain_image_views.len()
            invariant
                i <= self.swapchain_image_views@.len(),
                *self == *old(self),
                steps@ =~= seq![Release::DestroySwapchain(self.swapchain)] + views_release(
                    self.swapchain_image_views@.take(i as int),
                ),
            decreases self.swapchain_image_views@.len() - i,
        {
            steps.push(Release::DestroyImageView(self.swapchain_image_views[i]));
            i += 1;
        }
        proof {
            assert(self.swapchain_image_views@.take(i as int) =~= self.swapchain_image_views@);
        }
        let mut draw_steps: Vec<Release> = self.draw_image.dealloc();
        let mut depth_steps: Vec<Release> = self.depth_image.dealloc();
        steps.append(&mut draw_steps);
        steps.append(&mut depth_steps);
        proof {
            assert(steps@ =~= old(self).swapchain_release());
        }
        steps
    }

    /// Lists the steps that destroy the background effects.
    pub fn destroy_effects(&self) -> (steps: Vec<Release>)
        requires
            self.wf(),
        ensures
            steps@ == self.effects_release(),
    {
        let mut steps: Vec<Release> = Vec::new();
        steps.push(Release::DestroyPipelineLayout(self.background_effects[0].layout));
        let mut i: usize = 0;
        while i < self.background_effects.len()
            invariant
                i <= self.background_effects@.len(),
                self.background_effects@.len() > 0,
                steps@ =~= seq![
                    Release::DestroyPipelineLayout(self.background_effects@[0].layout),
                ] + pipelines_release(self.background_effects@.take(i as int)),
            decreases self.background_effects@.len() - i,
        {
            steps.push(Release::DestroyPipeline(self.background_effects[i].pipeline));
            i += 1;
        }
        proof {
            assert(self.background_effects@.take(i as int) =~= self.background_effects@);
        }
        steps
    }

    /// Lists the steps that destroy the mesh pipeline.
    pub fn destroy_graphics(&self) -> (steps: Vec<Release>)
        ensures
            steps@ == self.graphics_release(),
    {
        let mut steps: Vec<Release> = Vec::new();
        steps.push(Release::DestroyPipelineLayout(self.mesh_pipeline_layout));
        steps.push(Release::DestroyPipeline(self.mesh_pipeline));
        proof {
            assert(steps@ =~= self.graphics_release());
        }
        steps
    }

    /// Lists the steps that destroy the descriptor set layout and the
    /// descriptor pool.
    pub fn destroy_descriptor_sets(&self) -> (steps: Vec<Release>)
        ensures
            steps@ == self.descriptors_release(),
    {
        let mut steps: Vec<Release> = Vec::new();
        steps.push(Release::DestroyDescriptorSetLayout(self.draw_image_descriptor_layout));
        steps.push(self.global_descriptor_allocator.destroy_pool());
        proof {
            assert(steps@ =~= self.descriptors_release());
        }
        steps
    }

    /// Lists the steps that destroy what the frame slots own.
    pub fn destroy_frame_data(&self) -> (steps: Vec<Release>)
        ensures
            steps@ == frames_release(self.frames@),
    {
        let mut steps: Vec<Release> = Vec::new();
        let mut i: usize = 0;
        while i < FRAME_OVERLAP
            invariant
                i <= FRAME_OVERLAP,
                self.frames@.len() == FRAME_OVERLAP,
                steps@ =~= frames_release(self.frames@.take(i as int)),
            decreases FRAME_OVERLAP - i,
        {
            proof {
                assert(self.frames@.take(i + 1).drop_last() =~= self.frames@.take(i as int));
            }
            let frame = self.frames[i];
            steps.push(Release::DestroyCommandPool(frame.command_pool));
            steps.push(Release::DestroyFence(frame.render_fence));
            steps.push(Release::DestroySemaphore(frame.render_semaphore));
            steps.push(Release::DestroySemaphore(frame.swapchain_semaphore));
            i += 1;
        }
        proof {
            assert(self.frames@.take(i as int) =~= self.frames@);
        }
        steps
    }

    /// Lists the steps that destroy what serves submissions outside the
    /// frame loop.
    pub fn destroy_immediate_handles(&self) -> (steps: Vec<Release>)
        ensures
            steps@ == self.immediate_release(),
    {
        let mut steps: Vec<Release> = Vec::new();
        steps.push(Release::DestroyFence(self.immediate_fence));
        steps.push(Release::DestroyCommandPool(self.immediate_command_pool));
        steps.push(Release::DestroyDescriptorPool(self.imgui_pool));
        proof {
            assert(steps@ =~= self.immediate_release());
        }
        steps
    }
}

impl VulkanEngine {
    /// The last steps of a shutdown: the surface, the allocator, then the
    /// device it allocated from, the debug messenger and the instance.
    pub open spec fn final_release(self) -> Seq<Release> {
        seq![
            Release::DestroySurface(self.surface),
            Release::ReleaseAllocator,
            Release::DestroyDevice,
            Release::DestroyDebugMessenger,
            Release::DestroyInstance,
        ]
    }

    /// Every step of shutting down, in order; none for an engine that is
    /// not set up.
    ///
    /// The device comes to rest first. Then go the meshes, the overlay, what
    /// serves immediate submissions, the pipelines, the descriptors, the
    /// frame slots, the swapchain with the render targets, and last the
    /// device itself with what it was created from.
    pub open spec fn shutdown_steps(self) -> Seq<Release> {
        if self.is_initialized {
            seq![Release::WaitIdle] + meshes_release(self.test_meshes@) + seq![
                Release::DropOverlayRenderer,
            ] + self.immediate_release() + self.effects_release() + self.graphics_release()
                + self.descriptors_release() + frames_release(self.frames@)
                + self.swapchain_release() + self.final_release()
        } else {
            Seq::empty()
        }
    }

    /// Whether no image and no buffer of the engine owns memory any more.
    pub open spec fn holds_no_memory(self) -> bool {
        &&& self.draw_image.allocation.value is None
        &&& self.depth_image.allocation.value is None
        &&& forall|i: int|
            0 <= i < self.test_meshes@.len() ==> (
            #[trigger] self.test_meshes@[i]).mesh_buffers.vertex_buffer.allocation.value is None
                && self.test_meshes@[i].mesh_buffers.index_buffer.allocation.value is None
    }

    /// Gives up the meshes and appends the steps that release them.
    fn release_meshes(&mut self, steps: &mut Vec<Release>)
        requires
            old(self).wf(),
            old(self).holds_all_memory(),
            !old(self).is_initialized,
        ensures
            final(self).wf(),
            final(steps)@ == old(steps)@ + meshes_release(old(self).test_meshes@),
            *final(self) == (VulkanEngine { test_meshes: final(self).test_meshes, ..*old(self) }),
            final(self).test_meshes@.len() == old(self).test_meshes@.len(),
            forall|i: int|
                0 <= i < final(self).test_meshes@.len() ==> released(
                    old(self).test_meshes@[i],
                    #[trigger] final(self).test_meshes@[i],
                ),
    {
        let mut i: usize = 0;
        proof {
            assert(old(self).test_meshes@.take(0) =~= Seq::<MeshAsset>::empty());
            assert(steps@ =~= old(steps)@ + meshes_release(old(self).test_meshes@.take(0)));
        }
        while i < self.test_meshes.len()
            invariant
                i <= self.test_meshes@.len(),
                self.test_meshes@.len() == old(self).test_meshes@.len(),
                old(self).holds_all_memory(),
                *self == (VulkanEngine { test_meshes: self.test_meshes, ..*old(self) }),
                steps@ == old(steps)@ + meshes_release(old(self).test_meshes@.take(i as int)),
                forall|j: int|
                    i <= j < self.test_meshes@.len() ==> #[trigger] self.test_meshes@[j] == old(
                        self,
                    ).test_meshes@[j],
                forall|j: int|
                    0 <= j < i ==> released(
                        old(self).test_meshes@[j],
                        #[trigger] self.test_meshes@[j],
                    ),
            decreases self.test_meshes@.len() - i,
        {
            let ghost before = self.test_meshes@;
            proof {
                assert(old(self).test_meshes@.take(i + 1).drop_last() =~= old(
                    self,
                ).test_meshes@.take(i as int));
                assert(before[i as int] == old(self).test_meshes@[i as int]);
                assert(old(self).test_meshes@[i as int].mesh_buffers.is_live());
            }
            let mesh = &mut self.test_meshes[i];
            let mut freed: Vec<Release> = mesh.mesh_buffers.dealloc();
            steps.append(&mut freed);
            proof {
                assert(steps@ =~= old(steps)@ + meshes_release(
                    old(self).test_meshes@.take(i + 1),
                ));
            }
            i += 1;
        }
        proof {
            assert(old(self).test_meshes@.take(i as int) =~= old(self).test_meshes@);
        }
    }

    /// Shuts the engine down: gives up all it owns and returns every step
    /// of the teardown, in order.
    ///
    /// The first step waits for the device to finish; only then is anything
    /// released. Each allocation that the engine holds is handed back in
    /// exactly one step: two for the render targets and two for each mesh.
    /// Afterwards the engine owns no memory and is no longer set up, so
    /// that a second shutdown returns no step at all.
    pub fn shutdown(&mut self) -> (steps: Vec<Release>)
        requires
            old(self).wf(),
        ensures
            steps@ == old(self).shutdown_steps(),
            !final(self).is_initialized,
            final(self).wf(),
            final(self).shutdown_steps() == Seq::<Release>::empty(),
            old(self).is_initialized ==> {
                &&& steps@[0] is WaitIdle
                &&& count_frees(steps@) == 2 + 2 * old(self).test_meshes@.len()
                &&& final(self).holds_no_memory()
                &&& *final(self) == (VulkanEngine {
                    is_initialized: false,
                    draw_image: old(self).draw_image.emptied(),
                    depth_image: old(self).depth_image.emptied(),
                    test_meshes: final(self).test_meshes,
                    ..*old(self)
                })
                &&& final(self).test_meshes@.len() == old(self).test_meshes@.len()
                &&& forall|i: int|
                    0 <= i < old(self).test_meshes@.len() ==> released(
                        old(self).test_meshes@[i],
                        #[trigger] final(self).test_meshes@[i],
                    )
            },
            !old(self).is_initialized ==> *final(self) == *old(self),
    {
        let mut steps: Vec<Release> = Vec::new();
        if !self.is_initialized {
            return steps;
        }
        self.is_initialized = false;
        steps.push(Release::WaitIdle);
        self.release_meshes(&mut steps);
        steps.push(Release::DropOverlayRenderer);
        let mut immediate = self.destroy_immediate_handles();
        steps.append(&mut immediate);
        let mut effects = self.destroy_effects();
        steps.append(&mut effects);
        let mut graphics = self.destroy_graphics();
        steps.append(&mut graphics);
        let mut descriptors = self.destroy_descriptor_sets();
        steps.append(&mut descriptors);
        let mut frames = self.destroy_frame_data();
        steps.append(&mut frames);
        let mut swapchain = self.destroy_swapchain();
        steps.append(&mut swapchain);
        steps.push(Release::DestroySurface(self.surface));
        steps.push(Release::ReleaseAllocator);
        steps.push(Release::DestroyDevice);
        steps.push(Release::DestroyDebugMessenger);
        steps.push(Release::DestroyInstance);
        proof {
            assert(steps@ =~= old(self).shutdown_steps());
            lemma_shutdown_frees(*old(self));
        }
        steps
    }
}

/// A shutdown waits for the device before it releases anything, and hands
/// back each allocation of the engine exactly once: one for each render
/// target and one for each buffer of each mesh.
pub proof fn lemma_shutdown_frees(e: VulkanEngine)
    requires
        e.wf(),
        e.is_initialized,
    ensures
        e.shutdown_steps()[0] is WaitIdle,
        forall|i: int|
            0 < i < e.shutdown_steps().len() ==> !(#[trigger] e.shutdown_steps()[i] is WaitIdle),
        count_frees(e.shutdown_steps()) == 2 + 2 * e.test_meshes@.len(),
{
    let a = seq![Release::WaitIdle];
    let b = meshes_release(e.test_meshes@);
    let c = seq![Release::DropOverlayRenderer];
    let d = e.immediate_release();
    let f = e.effects_release();
    let g = e.graphics_release();
    let h = e.descriptors_release();
    let k = frames_release(e.frames@);
    let views = seq![Release::DestroySwapchain(e.swapchain)] + views_release(
        e.swapchain_image_views@,
    );
    let draw = e.draw_image.release_steps(e.draw_image.allocation.value->Some_0);
    let depth = e.depth_image.release_steps(e.depth_image.allocation.value->Some_0);
    let m = e.final_release();
    lemma_no_frees(a);
    lemma_meshes_release_frees(e.test_meshes@);
    lemma_no_frees(c);
    lemma_no_frees(d);
    lemma_no_frees(f);
    lemma_no_frees(g);
    lemma_no_frees(h);
    lemma_frames_no_frees(e.frames@);
    lemma_no_frees(views);
    lemma_image_frees(draw);
    lemma_image_frees(depth);
    lemma_no_frees(m);
    lemma_count_frees_concat(a, b);
    lemma_count_frees_concat(a + b, c);
    lemma_count_frees_concat(a + b + c, d);
    lemma_count_frees_concat(a + b + c + d, f);
    lemma_count_frees_concat(a + b + c + d + f, g);
    lemma_count_frees_concat(a + b + c + d + f + g, h);
    lemma_count_frees_concat(a + b + c + d + f + g + h, k);
    lemma_count_frees_concat(views, draw);
    lemma_count_frees_concat(views + draw, depth);
    assert(e.swapchain_release() == views + draw + depth);
    lemma_count_frees_concat(a + b + c + d + f + g + h + k, views + draw + depth);
    lemma_count_frees_concat(a + b + c + d + f + g + h + k + (views + draw + depth), m);
    let all = e.shutdown_steps();
    assert(all == a + b + c + d + f + g + h + k + (views + draw + depth) + m);
    lemma_no_wait(b + c + d + f + g + h + k + (views + draw + depth) + m, e);
    assert(all =~= a + (b + c + d + f + g + h + k + (views + draw + depth) + m));
}

/// A shutdown ends with the device: the allocator is released after the
/// last allocation was handed back to it, the device is destroyed after
/// the allocator, and the instance after the device.
pub proof fn lemma_shutdown_ends_with_device(e: VulkanEngine)
    requires
        e.wf(),
        e.is_initialized,
    ensures
        ({
            let steps = e.shutdown_steps();
            let n = steps.len() as int;
            &&& n >= 5
            &&& steps[n - 4] is ReleaseAllocator
            &&& steps[n - 3] is DestroyDevice
            &&& steps[n - 1] is DestroyInstance
            &&& forall|i: int|
                0 <= i < n && (#[trigger] steps[i] is FreeMemory || steps[i] is DestroyBuffer
                    || steps[i] is DestroyImage || steps[i] is DestroyImageView
                    || steps[i] is DestroySwapchain) ==> i < n - 5
        }),
{
    let steps = e.shutdown_steps();
    let last = e.final_release();
    let before = seq![Release::WaitIdle] + meshes_release(e.test_meshes@) + seq![
        Release::DropOverlayRenderer,
    ] + e.immediate_release() + e.effects_release() + e.graphics_release()
        + e.descriptors_release() + frames_release(e.frames@) + e.swapchain_release();
    assert(steps == before + last);
    assert(last.len() == 5);
    assert forall|i: int| before.len() <= i < steps.len() implies steps[i] == last[i
        - before.len()] by {}
}

proof fn lemma_frames_no_frees(frames: Seq<FrameData>)
    ensures
        count_frees(frames_release(frames)) == 0,
        forall|i: int|
            0 <= i < frames_release(frames).len() ==> !(#[trigger] frames_release(
                frames,
            )[i] is WaitIdle),
    decreases frames.len(),
{
    if frames.len() > 0 {
        lemma_frames_no_frees(frames.drop_last());
        lemma_no_frees(frame_release(frames.last()));
        lemma_count_frees_concat(frames_release(frames.drop_last()), frame_release(frames.last()));
    }
}

proof fn lemma_meshes_no_wait(meshes: Seq<MeshAsset>)
    ensures
        forall|i: int|
            0 <= i < meshes_release(meshes).len() ==> !(#[trigger] meshes_release(
                meshes,
            )[i] is WaitIdle),
    decreases meshes.len(),
{
    if meshes.len() > 0 {
        lemma_meshes_no_wait(meshes.drop_last());
    }
}

proof fn lemma_no_wait(rest: Seq<Release>, e: VulkanEngine)
    requires
        e.wf(),
        rest == meshes_release(e.test_meshes@) + seq![Release::DropOverlayRenderer]
            + e.immediate_release() + e.effects_release() + e.graphics_release()
            + e.descriptors_release() + frames_release(e.frames@) + (seq![
            Release::DestroySwapchain(e.swapchain),
        ] + views_release(e.swapchain_image_views@) + e.draw_image.release_steps(
            e.draw_image.allocation.value->Some_0,
        ) + e.depth_image.release_steps(e.depth_image.allocation.value->Some_0))
            + e.final_release(),
    ensures
        forall|i: int| 0 <= i < rest.len() ==> !(#[trigger] rest[i] is WaitIdle),
{
    lemma_meshes_no_wait(e.test_meshes@);
    lemma_frames_no_frees(e.frames@);
}

} // verus!
