//! The buffers of one mesh on the device, and the plan that puts a mesh
//! there.

use crate::vk;
use crate::vk_commands::Command;
use crate::vk_engine::immediate::{
    ImmediateAction, ImmediateContext, ImmediateError, ImmediatePhase,
};
use crate::vk_engine::FrameEvent;
use crate::vk_types::buffers::{create_buffer, destroy_buffer, AllocatedBuffer, BufferPlan};
use crate::vk_types::{MemoryLocation, Release};
use vstd::prelude::*;

verus! {

/// Bytes of one vertex as the shaders read it: position, normal and the two
/// texture coordinates interleaved in eight floats, then four of colour.
pub const VERTEX_SIZE: u64 = 48;

/// Bytes of one index.
pub const INDEX_SIZE: u64 = 4;

/// The index and vertex buffers of a mesh, with the device address of the
/// vertices.
#[derive(Debug)]
pub struct GPUMeshBuffers {
    pub index_buffer: AllocatedBuffer,
    pub vertex_buffer: AllocatedBuffer,
    pub vertex_buffer_address: u64,
}

/// How a mesh reaches the device: the two buffers it ends up in, the
/// staging buffer it passes through, and the two copies out of staging.
///
/// Staging holds the vertices from offset zero and the indices right behind
/// them.
#[derive(Clone, Copy, Debug, PartialEq, Eq, Structural)]
pub struct MeshUpload {
    pub vertex_buffer: BufferPlan,
    pub index_buffer: BufferPlan,
    pub staging_buffer: BufferPlan,
    /// Offset of the first index in the staging buffer.
    pub index_staging_offset: u64,
    pub vertex_copy: vk::BufferCopy,
    pub index_copy: vk::BufferCopy,
}

/// Bytes that `vertex_count` vertices occupy.
pub open spec fn vertex_bytes(vertex_count: usize) -> int {
    vertex_count * VERTEX_SIZE
}

/// Bytes that `index_count` indices occupy.
pub open spec fn index_bytes(index_count: usize) -> int {
    index_count * INDEX_SIZE
}

/// The upload of a mesh with the given numbers of indices and vertices.
pub open spec fn spec_upload_mesh(index_count: usize, vertex_count: usize) -> MeshUpload {
    let v = vertex_bytes(vertex_count) as u64;
    let i = index_bytes(index_count) as u64;
    MeshUpload {
        vertex_buffer: BufferPlan {
            info: vk::BufferCreateInfo {
                size: v,
                usage: vk::BUFFER_USAGE_STORAGE_BUFFER | vk::BUFFER_USAGE_TRANSFER_DST
                    | vk::BUFFER_USAGE_SHADER_DEVICE_ADDRESS,
            },
            memory_location: MemoryLocation::GpuOnly,
        },
        index_buffer: BufferPlan {
            info: vk::BufferCreateInfo {
                size: i,
                usage: vk::BUFFER_USAGE_INDEX_BUFFER | vk::BUFFER_USAGE_TRANSFER_DST,
            },
            memory_location: MemoryLocation::GpuOnly,
        },
        staging_buffer: BufferPlan {
            info: vk::BufferCreateInfo {
                size: (v + i) as u64,
                usage: vk::BUFFER_USAGE_TRANSFER_SRC,
            },
            memory_location: MemoryLocation::CpuToGpu,
        },
        index_staging_offset: v,
        vertex_copy: vk::BufferCopy { src_offset: 0, dst_offset: 0, size: v },
        index_copy: vk::BufferCopy { src_offset: v, dst_offset: 0, size: i },
    }
}

/// Plans the upload of a mesh with `index_count` indices and `vertex_count`
/// vertices: a device-local vertex buffer that shaders address directly, a
/// device-local index buffer, and a host-visible staging buffer that holds
/// both.
///
/// Returns `None` exactly when the staging buffer would exceed 64 bits of
/// size.
pub fn upload_mesh(index_count: usize, vertex_count: usize) -> (plan: Option<MeshUpload>)
    ensures
        plan is Some <==> vertex_bytes(vertex_count) + index_bytes(index_count) <= u64::MAX,
        plan is Some ==> plan->Some_0 == spec_upload_mesh(index_count, vertex_count),
{
    let vertex_buffer_size: u64 = match (vertex_count as u64).checked_mul(VERTEX_SIZE) {
        Some(v) => v,
        None => {
            return None;
        },
    };
    let index_buffer_size: u64 = match (index_count as u64).checked_mul(INDEX_SIZE) {
        Some(i) => i,
        None => {
            return None;
        },
    };
    let staging_size: u64 = match vertex_buffer_size.checked_add(index_buffer_size) {
        Some(s) => s,
        None => {
            return None;
        },
    };
    let vertex_buffer = create_buffer(
        vertex_buffer_size,
        vk::BUFFER_USAGE_STORAGE_BUFFER | vk::BUFFER_USAGE_TRANSFER_DST
            | vk::BUFFER_USAGE_SHADER_DEVICE_ADDRESS,
        MemoryLocation::GpuOnly,
    );
    let index_buffer = create_buffer(
        index_buffer_size,
        vk::BUFFER_USAGE_INDEX_BUFFER | vk::BUFFER_USAGE_TRANSFER_DST,
        MemoryLocation::GpuOnly,
    );
    let staging_buffer = create_buffer(
        staging_size,
        vk::BUFFER_USAGE_TRANSFER_SRC,
        MemoryLocation::CpuToGpu,
    );
    Some(
        MeshUpload {
            vertex_buffer,
            index_buffer,
            staging_buffer,
            index_staging_offset: vertex_buffer_size,
            vertex_copy: vk::BufferCopy { src_offset: 0, dst_offset: 0, size: vertex_buffer_size },
            index_copy: vk::BufferCopy {
                src_offset: vertex_buffer_size,
                dst_offset: 0,
                size: index_buffer_size,
            },
        },
    )
}

impl MeshUpload {
    /// The two copies out of staging: vertices first, then indices.
    pub open spec fn spec_commands(
        self,
        staging: vk::Handle,
        vertex_buffer: vk::Handle,
        index_buffer: vk::Handle,
    ) -> Seq<Command> {
        seq![
            Command::CopyBuffer { src: staging, dst: vertex_buffer, region: self.vertex_copy },
            Command::CopyBuffer { src: staging, dst: index_buffer, region: self.index_copy },
        ]
    }

    /// The commands that move the mesh from the staging buffer into its two
    /// buffers, for one immediate submission.
    pub fn commands(
        &self,
        staging: vk::Handle,
        vertex_buffer: vk::Handle,
        index_buffer: vk::Handle,
    ) -> (list: Vec<Command>)
        ensures
            list@ == self.spec_commands(staging, vertex_buffer, index_buffer),
    {
        let mut list: Vec<Command> = Vec::new();
        list.push(
            Command::CopyBuffer { src: staging, dst: vertex_buffer, region: self.vertex_copy },
        );
        list.push(Command::CopyBuffer { src: staging, dst: index_buffer, region: self.index_copy });
        proof {
            assert(list@ =~= self.spec_commands(staging, vertex_buffer, index_buffer));
        }
        list
    }
}

impl GPUMeshBuffers {
    /// Whether both buffers still own their memory.
    pub open spec fn is_live(&self) -> bool {
        self.vertex_buffer.allocation.is_set() && self.index_buffer.allocation.is_set()
    }

    /// The steps that release a live mesh: the vertex buffer first, then
    /// the index buffer, each buffer before its memory.
    pub open spec fn release_steps(self) -> Seq<Release> {
        self.vertex_buffer.release_steps(self.vertex_buffer.allocation.value->Some_0)
            + self.index_buffer.release_steps(self.index_buffer.allocation.value->Some_0)
    }

    /// The mesh without the memory of its buffers.
    pub open spec fn emptied(self) -> GPUMeshBuffers {
        GPUMeshBuffers {
            index_buffer: self.index_buffer.emptied(),
            vertex_buffer: self.vertex_buffer.emptied(),
            vertex_buffer_address: self.vertex_buffer_address,
        }
    }

    /// Gives up both buffers of a live mesh and returns the steps that
    /// release them.
    ///
    /// A mesh is given up once; to give it up again is an error of the
    /// caller.
    pub fn dealloc(&mut self) -> (steps: Vec<Release>)
        requires
            old(self).is_live(),
        ensures
            steps@ == old(self).release_steps(),
            *final(self) == old(self).emptied(),
    {
        let mut steps: Vec<Release> = destroy_buffer(&mut self.vertex_buffer);
        let mut more: Vec<Release> = destroy_buffer(&mut self.index_buffer);
        steps.append(&mut more);
        steps
    }
}

/// Where an upload stands: which step has been handed out and awaits its
/// outcome.
#[derive(Clone, Copy, Debug, PartialEq, Eq, Structural)]
pub enum UploadPhase {
    /// Nothing has been asked for yet.
    Idle,
    CreatingVertex,
    CreatingIndex,
    CreatingStaging,
    /// The host copies vertices and indices into the staging buffer.
    Filling,
    /// The immediate submission of the copies out of staging is under way.
    Submitting,
    /// The device has finished the copies; staging is to be released.
    Releasing,
    /// Staging is released; the mesh is ready to be taken.
    Finished,
    /// The wait for the submitted copies failed: the device may still hold
    /// them.
    Stranded,
    /// The upload was given up; what it holds is to be released.
    Failed,
    /// The upload was given up and holds nothing any more.
    Abandoned,
}

/// What the host reports to an upload.
#[derive(Debug)]
pub enum UploadEvent {
    /// The upload is to begin.
    Start,
    /// The buffer asked for exists and has its memory bound. For the
    /// vertex buffer `address` is its device address; for the others it is
    /// of no account.
    Created { buffer: AllocatedBuffer, address: u64 },
    /// The buffer asked for could not be created; nothing of it is left.
    CreationFailed,
    /// Vertices and indices are in the staging buffer.
    Filled,
    /// The staging buffer could not be written.
    FillFailed,
    /// The outcome of the call of the immediate submission that was handed
    /// out last.
    Device(FrameEvent),
    /// The host has waited until the device finished all its work.
    DeviceIdle,
}

/// The step that the host is to take next for an upload.
#[derive(Clone, Copy, Debug, PartialEq, Eq, Structural)]
pub enum UploadAction {
    /// Create the vertex buffer and ask for its device address.
    CreateVertexBuffer(BufferPlan),
    CreateIndexBuffer(BufferPlan),
    CreateStagingBuffer(BufferPlan),
    /// Copy the vertices to the start of the staging buffer and the
    /// indices to `index_offset`.
    Fill { index_offset: u64 },
    /// Perform this call of the immediate submission of the copies; where
    /// it asks for the recording, record the commands of `copy_commands`.
    Immediate(ImmediateAction),
    /// Carry out the steps of `release_staging`, then take the mesh with
    /// `finish`.
    ReleaseStaging,
    /// Carry out the steps of `abandon`.
    Abandon,
}

/// Why an upload was given up.
#[derive(Clone, Copy, Debug, PartialEq, Eq, Structural)]
pub enum UploadError {
    /// The event does not answer the step that was handed out last.
    UnexpectedEvent,
    /// A buffer could not be created. Nothing was submitted: carry out
    /// the steps of `abandon`.
    CreationFailed,
    /// The staging buffer could not be written. Nothing was submitted:
    /// carry out the steps of `abandon`.
    FillFailed,
    /// The immediate submission failed before anything reached the
    /// device. Carry out the steps of `abandon`.
    SubmissionFailed(ImmediateError),
    /// The wait for the submitted copies failed. The device may still read
    /// the staging buffer: nothing is released before the host reports
    /// `DeviceIdle`.
    Stranded(ImmediateError),
}

/// An upload in progress: the plan, and the buffers created so far. The
/// upload owns every buffer it holds until it hands the mesh out or
/// releases them.
#[derive(Debug)]
pub struct MeshUploader {
    pub plan: MeshUpload,
    /// The immediate submission that carries the copies.
    pub immediate: ImmediateContext,
    pub phase: UploadPhase,
    pub vertex_buffer: Option<AllocatedBuffer>,
    pub vertex_buffer_address: u64,
    pub index_buffer: Option<AllocatedBuffer>,
    pub staging_buffer: Option<AllocatedBuffer>,
}

/// Whether a buffer that is there owns its memory.
pub open spec fn owned(buffer: Option<AllocatedBuffer>) -> bool {
    buffer is Some ==> buffer->Some_0.allocation.is_set()
}

/// The steps that release a buffer that is there; none for one that is
/// not.
pub open spec fn release_of(buffer: Option<AllocatedBuffer>) -> Seq<Release> {
    match buffer {
        Some(b) => b.release_steps(b.allocation.value->Some_0),
        None => Seq::empty(),
    }
}

/// How far an upload has come. No step leads back.
pub open spec fn progress(phase: UploadPhase) -> int {
    match phase {
        UploadPhase::Idle => 0,
        UploadPhase::CreatingVertex => 1,
        UploadPhase::CreatingIndex => 2,
        UploadPhase::CreatingStaging => 3,
        UploadPhase::Filling => 4,
        UploadPhase::Submitting => 5,
        UploadPhase::Releasing => 6,
        UploadPhase::Finished => 7,
        UploadPhase::Stranded => 6,
        UploadPhase::Failed => 7,
        UploadPhase::Abandoned => 8,
    }
}

impl MeshUploader {
    /// What must hold of an upload between any two calls: it owns the
    /// memory of every buffer it holds, and holds the buffers that its
    /// phase has behind it.
    pub open spec fn wf(self) -> bool {
        &&& owned(self.vertex_buffer)
        &&& owned(self.index_buffer)
        &&& owned(self.staging_buffer)
        &&& (self.phase is Idle || self.phase is CreatingVertex || self.phase is Abandoned)
            ==> self.vertex_buffer is None && self.index_buffer is None
            && self.staging_buffer is None
        &&& self.phase is CreatingIndex ==> self.vertex_buffer is Some && self.index_buffer is None
            && self.staging_buffer is None
        &&& self.phase is CreatingStaging ==> self.vertex_buffer is Some
            && self.index_buffer is Some && self.staging_buffer is None
        &&& (self.phase is Filling || self.phase is Submitting || self.phase is Releasing
            || self.phase is Stranded) ==> self.vertex_buffer is Some && self.index_buffer is Some
            && self.staging_buffer is Some
        &&& self.phase is Finished ==> self.vertex_buffer is Some && self.index_buffer is Some
            && self.staging_buffer is None
    }

    /// An upload that follows `plan` and submits through `immediate`, with
    /// nothing asked for yet.
    pub fn new(plan: MeshUpload, immediate: ImmediateContext) -> (u: MeshUploader)
        ensures
            u.wf(),
            u.plan == plan,
            u.immediate == immediate,
            u.phase is Idle,
            u.vertex_buffer is None,
            u.index_buffer is None,
            u.staging_buffer is None,
            u.vertex_buffer_address == 0,
    {
        MeshUploader {
            plan,
            immediate,
            phase: UploadPhase::Idle,
            vertex_buffer: None,
            vertex_buffer_address: 0,
            index_buffer: None,
            staging_buffer: None,
        }
    }

    /// The upload in another phase.
    pub open spec fn in_phase(self, phase: UploadPhase) -> MeshUploader {
        MeshUploader { phase, ..self }
    }

    /// What `next` makes of an upload and an event: the upload afterwards,
    /// and the step it hands out or the error it reports.
    ///
    /// The three buffers are created one after the other, the staging
    /// buffer is filled, and the copies go through an immediate
    /// submission, call by call. Staging is released when that submission
    /// answers `Completed`, which it does only to the successful wait for
    /// its fence, and to nothing else. A failure before the copies reached
    /// the device leaves the upload `Failed`, ready to release what it
    /// holds. A failure of the wait leaves it `Stranded`: the device may
    /// still read the buffers, and only the report that the device is idle
    /// leads on to their release. An event that does not belong to the
    /// phase changes nothing.
    pub open spec fn upload_spec(self, event: UploadEvent) -> (
        MeshUploader,
        Result<UploadAction, UploadError>,
    ) {
        match (self.phase, event) {
            (UploadPhase::Idle, UploadEvent::Start) => (
                self.in_phase(UploadPhase::CreatingVertex),
                Ok(UploadAction::CreateVertexBuffer(self.plan.vertex_buffer)),
            ),
            (UploadPhase::CreatingVertex, UploadEvent::Created { buffer, address }) => (
                MeshUploader {
                    phase: UploadPhase::CreatingIndex,
                    vertex_buffer: Some(buffer),
                    vertex_buffer_address: address,
                    ..self
                },
                Ok(UploadAction::CreateIndexBuffer(self.plan.index_buffer)),
            ),
            (UploadPhase::CreatingIndex, UploadEvent::Created { buffer, address }) => (
                MeshUploader {
                    phase: UploadPhase::CreatingStaging,
                    index_buffer: Some(buffer),
                    ..self
                },
                Ok(UploadAction::CreateStagingBuffer(self.plan.staging_buffer)),
            ),
            (UploadPhase::CreatingStaging, UploadEvent::Created { buffer, address }) => (
                MeshUploader { phase: UploadPhase::Filling, staging_buffer: Some(buffer), ..self },
                Ok(UploadAction::Fill { index_offset: self.plan.index_staging_offset }),
            ),
            (UploadPhase::CreatingVertex, UploadEvent::CreationFailed) => (
                self.in_phase(UploadPhase::Failed),
                Err(UploadError::CreationFailed),
            ),
            (UploadPhase::CreatingIndex, UploadEvent::CreationFailed) => (
                self.in_phase(UploadPhase::Failed),
                Err(UploadError::CreationFailed),
            ),
            (UploadPhase::CreatingStaging, UploadEvent::CreationFailed) => (
                self.in_phase(UploadPhase::Failed),
                Err(UploadError::CreationFailed),
            ),
            (UploadPhase::Filling, UploadEvent::Filled) => {
                let (immediate, answer) = self.immediate.submit_spec(FrameEvent::Start);
                match answer {
                    Ok(call) => (
                        MeshUploader { phase: UploadPhase::Submitting, immediate, ..self },
                        Ok(UploadAction::Immediate(call)),
                    ),
                    Err(e) => (
                        MeshUploader { phase: UploadPhase::Failed, immediate, ..self },
                        Err(UploadError::SubmissionFailed(e)),
                    ),
                }
            },
            (UploadPhase::Filling, UploadEvent::FillFailed) => (
                self.in_phase(UploadPhase::Failed),
                Err(UploadError::FillFailed),
            ),
            (UploadPhase::Submitting, UploadEvent::Device(outcome)) => {
                let (immediate, answer) = self.immediate.submit_spec(outcome);
                match answer {
                    Ok(ImmediateAction::Completed) => (
                        MeshUploader { phase: UploadPhase::Releasing, immediate, ..self },
                        Ok(UploadAction::ReleaseStaging),
                    ),
                    Ok(call) => (
                        MeshUploader { immediate, ..self },
                        Ok(UploadAction::Immediate(call)),
                    ),
                    Err(ImmediateError::UnexpectedEvent) => (
                        self,
                        Err(UploadError::UnexpectedEvent),
                    ),
                    Err(e) => if self.immediate.phase is WaitingFence {
                        (
                            MeshUploader { phase: UploadPhase::Stranded, immediate, ..self },
                            Err(UploadError::Stranded(e)),
                        )
                    } else {
                        (
                            MeshUploader { phase: UploadPhase::Failed, immediate, ..self },
                            Err(UploadError::SubmissionFailed(e)),
                        )
                    },
                }
            },
            (UploadPhase::Stranded, UploadEvent::DeviceIdle) => (
                self.in_phase(UploadPhase::Failed),
                Ok(UploadAction::Abandon),
            ),
            _ => (self, Err(UploadError::UnexpectedEvent)),
        }
    }

    /// Moves an upload on by one step.
    ///
    /// The host begins with `Start`, takes the step that comes back and
    /// reports its outcome, until `ReleaseStaging` comes back or an error.
    /// The calls of the immediate submission are reported with their
    /// result codes, as `Device`.
    /// A buffer reported as created must own its memory; it belongs to the
    /// upload from then on. A buffer reported out of turn is refused with
    /// `UnexpectedEvent` and is lost to the caller.
    pub fn next(&mut self, event: UploadEvent) -> (r: Result<UploadAction, UploadError>)
        requires
            old(self).wf(),
            event matches UploadEvent::Created { buffer, .. } ==> buffer.allocation.is_set(),
        ensures
            (*final(self), r) == old(self).upload_spec(event),
            final(self).wf(),
    {
        match (self.phase, event) {
            (UploadPhase::Idle, UploadEvent::Start) => {
                self.phase = UploadPhase::CreatingVertex;
                Ok(UploadAction::CreateVertexBuffer(self.plan.vertex_buffer))
            },
            (UploadPhase::CreatingVertex, UploadEvent::Created { buffer, address }) => {
                self.vertex_buffer = Some(buffer);
                self.vertex_buffer_address = address;
                self.phase = UploadPhase::CreatingIndex;
                Ok(UploadAction::CreateIndexBuffer(self.plan.index_buffer))
            },
            (UploadPhase::CreatingIndex, UploadEvent::Created { buffer, address }) => {
                self.index_buffer = Some(buffer);
                self.phase = UploadPhase::CreatingStaging;
                Ok(UploadAction::CreateStagingBuffer(self.plan.staging_buffer))
            },
            (UploadPhase::CreatingStaging, UploadEvent::Created { buffer, address }) => {
                self.staging_buffer = Some(buffer);
                self.phase = UploadPhase::Filling;
                Ok(UploadAction::Fill { index_offset: self.plan.index_staging_offset })
            },
            (UploadPhase::CreatingVertex, UploadEvent::CreationFailed) => {
                self.phase = UploadPhase::Failed;
                Err(UploadError::CreationFailed)
            },
            (UploadPhase::CreatingIndex, UploadEvent::CreationFailed) => {
                self.phase = UploadPhase::Failed;
                Err(UploadError::CreationFailed)
            },
            (UploadPhase::CreatingStaging, UploadEvent::CreationFailed) => {
                self.phase = UploadPhase::Failed;
                Err(UploadError::CreationFailed)
            },
            (UploadPhase::Filling, UploadEvent::Filled) => {
                match self.immediate.immediate_submit(FrameEvent::Start) {
                    Ok(call) => {
                        self.phase = UploadPhase::Submitting;
                        Ok(UploadAction::Immediate(call))
                    },
                    Err(e) => {
                        self.phase = UploadPhase::Failed;
                        Err(UploadError::SubmissionFailed(e))
                    },
                }
            },
            (UploadPhase::Filling, UploadEvent::FillFailed) => {
                self.phase = UploadPhase::Failed;
                Err(UploadError::FillFailed)
            },
            (UploadPhase::Submitting, UploadEvent::Device(outcome)) => {
                let waiting = match self.immediate.phase {
                    ImmediatePhase::WaitingFence => true,
                    _ => false,
                };
                match self.immediate.immediate_submit(outcome) {
                    Ok(ImmediateAction::Completed) => {
                        self.phase = UploadPhase::Releasing;
                        Ok(UploadAction::ReleaseStaging)
                    },
                    Ok(call) => Ok(UploadAction::Immediate(call)),
                    Err(ImmediateError::UnexpectedEvent) => Err(UploadError::UnexpectedEvent),
                    Err(e) => {
                        if waiting {
                            self.phase = UploadPhase::Stranded;
                            Err(UploadError::Stranded(e))
                        } else {
                            self.phase = UploadPhase::Failed;
                            Err(UploadError::SubmissionFailed(e))
                        }
                    },
                }
            },
            (UploadPhase::Stranded, UploadEvent::DeviceIdle) => {
                self.phase = UploadPhase::Failed;
                Ok(UploadAction::Abandon)
            },
            _ => Err(UploadError::UnexpectedEvent),
        }
    }

    /// The copies that move the mesh out of staging, once all three
    /// buffers exist.
    pub fn copy_commands(&self) -> (list: Vec<Command>)
        requires
            self.wf(),
            self.phase is Submitting,
        ensures
            list@ == self.plan.spec_commands(
                self.staging_buffer->Some_0.buffer,
                self.vertex_buffer->Some_0.buffer,
                self.index_buffer->Some_0.buffer,
            ),
    {
        let staging = self.staging_buffer.as_ref().unwrap().buffer;
        let vertex = self.vertex_buffer.as_ref().unwrap().buffer;
        let index = self.index_buffer.as_ref().unwrap().buffer;
        self.plan.commands(staging, vertex, index)
    }

    /// Gives up the staging buffer after the device has finished the
    /// copies, and returns the steps that release it: the one free of an
    /// upload that succeeds.
    pub fn release_staging(&mut self) -> (steps: Vec<Release>)
        requires
            old(self).wf(),
            old(self).phase is Releasing,
        ensures
            steps@ == release_of(old(self).staging_buffer),
            *final(self) == (MeshUploader {
                phase: UploadPhase::Finished,
                staging_buffer: None,
                ..*old(self)
            }),
            final(self).wf(),
    {
        let mut staging = self.staging_buffer.take().unwrap();
        self.phase = UploadPhase::Finished;
        destroy_buffer(&mut staging)
    }

    /// Hands out the mesh of a finished upload: the vertex and the index
    /// buffer, each with the memory that was allocated for it, and the
    /// device address of the vertices.
    pub fn finish(self) -> (mesh: GPUMeshBuffers)
        requires
            self.wf(),
            self.phase is Finished,
        ensures
            mesh == (GPUMeshBuffers {
                index_buffer: self.index_buffer->Some_0,
                vertex_buffer: self.vertex_buffer->Some_0,
                vertex_buffer_address: self.vertex_buffer_address,
            }),
            mesh.is_live(),
    {
        GPUMeshBuffers {
            index_buffer: self.index_buffer.unwrap(),
            vertex_buffer: self.vertex_buffer.unwrap(),
            vertex_buffer_address: self.vertex_buffer_address,
        }
    }

    /// Gives up every buffer that a failed upload holds, and returns the
    /// steps that release them: vertex buffer, index buffer, staging
    /// buffer, as far as they exist.
    pub fn abandon(&mut self) -> (steps: Vec<Release>)
        requires
            old(self).wf(),
            old(self).phase is Failed,
        ensures
            steps@ == release_of(old(self).vertex_buffer) + release_of(old(self).index_buffer)
                + release_of(old(self).staging_buffer),
            *final(self) == (MeshUploader {
                phase: UploadPhase::Abandoned,
                vertex_buffer: None,
                index_buffer: None,
                staging_buffer: None,
                ..*old(self)
            }),
            final(self).wf(),
    {
        let mut steps: Vec<Release> = Vec::new();
        match self.vertex_buffer.take() {
            Some(mut buffer) => {
                let mut freed = destroy_buffer(&mut buffer);
                steps.append(&mut freed);
            },
            None => {},
        }
        match self.index_buffer.take() {
            Some(mut buffer) => {
                let mut freed = destroy_buffer(&mut buffer);
                steps.append(&mut freed);
            },
            None => {},
        }
        match self.staging_buffer.take() {
            Some(mut buffer) => {
                let mut freed = destroy_buffer(&mut buffer);
                steps.append(&mut freed);
            },
            None => {},
        }
        self.phase = UploadPhase::Abandoned;
        proof {
            assert(steps@ =~= release_of(old(self).vertex_buffer) + release_of(
                old(self).index_buffer,
            ) + release_of(old(self).staging_buffer));
        }
        steps
    }
}

/// The upload after the host has reported `events` to `next`, one by one.
pub open spec fn upload_after(u: MeshUploader, events: Seq<UploadEvent>) -> MeshUploader
    decreases events.len(),
{
    if events.len() == 0 {
        u
    } else {
        upload_after(u, events.drop_last()).upload_spec(events.last()).0
    }
}

/// What `next` answers to the event at position `n` of a run.
pub open spec fn upload_answer(u: MeshUploader, events: Seq<UploadEvent>, n: int) -> Result<
    UploadAction,
    UploadError,
> {
    upload_after(u, events.take(n)).upload_spec(events[n]).1
}

/// No step of an upload leads back. The release of staging answers the
/// successful wait for the fence of the copies and nothing else, and the
/// release of everything after a failed wait answers only the report that
/// the device is idle.
pub proof fn lemma_upload_step(u: MeshUploader, event: UploadEvent)
    ensures
        ({
            let (after, answer) = u.upload_spec(event);
            &&& progress(after.phase) >= progress(u.phase)
            &&& answer == Ok::<UploadAction, UploadError>(UploadAction::ReleaseStaging) ==> u.phase
                is Submitting && u.immediate.phase is WaitingFence && event
                == UploadEvent::Device(FrameEvent::Done(vk::SUCCESS)) && after.phase is Releasing
            &&& after.phase is Releasing && !(u.phase is Releasing) ==> answer == Ok::<
                UploadAction,
                UploadError,
            >(UploadAction::ReleaseStaging)
            &&& answer == Ok::<UploadAction, UploadError>(UploadAction::Abandon) ==> u.phase
                is Stranded && event is DeviceIdle
            &&& after.phase is Stranded && !(u.phase is Stranded) ==> u.phase is Submitting
                && u.immediate.phase is WaitingFence
            &&& after.staging_buffer != u.staging_buffer ==> u.phase is CreatingStaging
        }),
{
}

proof fn lemma_upload_progress(u: MeshUploader, events: Seq<UploadEvent>, a: int, b: int)
    requires
        0 <= a <= b <= events.len(),
    ensures
        progress(upload_after(u, events.take(a)).phase) <= progress(
            upload_after(u, events.take(b)).phase,
        ),
    decreases b - a,
{
    if a < b {
        lemma_upload_progress(u, events, a, b - 1);
        assert(events.take(b).drop_last() =~= events.take(b - 1));
        assert(events.take(b).last() == events[b - 1]);
        lemma_upload_step(upload_after(u, events.take(b - 1)), events[b - 1]);
    }
}

/// The release of staging is handed out at most once in any run of an
/// upload, and only in answer to the successful wait for the fence of the
/// copies: the host has seen that fence signalled before it frees what the
/// copies read.
pub proof fn lemma_staging_released_once(
    u: MeshUploader,
    events: Seq<UploadEvent>,
    i: int,
    j: int,
)
    requires
        0 <= i < events.len(),
        0 <= j < events.len(),
        upload_answer(u, events, i) == Ok::<UploadAction, UploadError>(
            UploadAction::ReleaseStaging,
        ),
        upload_answer(u, events, j) == Ok::<UploadAction, UploadError>(
            UploadAction::ReleaseStaging,
        ),
    ensures
        i == j,
        events[i] == UploadEvent::Device(FrameEvent::Done(vk::SUCCESS)),
        upload_after(u, events.take(i)).phase is Submitting,
        upload_after(u, events.take(i)).immediate.phase is WaitingFence,
{
    lemma_upload_step(upload_after(u, events.take(i)), events[i]);
    lemma_upload_step(upload_after(u, events.take(j)), events[j]);
    if i < j {
        assert(events.take(i + 1).drop_last() =~= events.take(i));
        assert(events.take(i + 1).last() == events[i]);
        lemma_upload_progress(u, events, i + 1, j);
    } else if j < i {
        assert(events.take(j + 1).drop_last() =~= events.take(j));
        assert(events.take(j + 1).last() == events[j]);
        lemma_upload_progress(u, events, j + 1, i);
    }
}

} // verus!
