//! The effects the actor emits while handling requests.
//!
//! Handling one request yields a sequence of [`Action`] values: backend
//! calls, one-way compositor transactions, replies to the requester, and the
//! shutdown notification to the actor's own upstream consumer. The sequence
//! records the effects in the order they are performed, so contracts over it
//! pin both what happens and when.

use vstd::prelude::*;

use crate::ids::{
    WebGPUAdapter, WebGPUBindGroup, WebGPUBindGroupLayout, WebGPUBuffer, WebGPUCommandBuffer,
    WebGPUCommandEncoder, WebGPUComputePipeline, WebGPUDevice, WebGPUPipelineLayout, WebGPUQueue,
    WebGPURenderPipeline, WebGPUSampler, WebGPUShaderModule, WebGPUTexture, WebGPUTextureView,
};
use crate::present::{ImageData, ImageDescriptor};
use crate::request::{
    BindGroupEntry, BindGroupLayoutEntry, BufferDescriptor, OpaqueDescriptor,
    RenderPipelineDescriptor, WebGPUResponseResult,
};

verus! {

/// One typed call into the GPU backend.
#[derive(Debug, PartialEq, Eq)]
pub enum BackendOp {
    CommandEncoderFinish {
        command_encoder_id: WebGPUCommandEncoder,
    },
    CopyBufferToBuffer {
        command_encoder_id: WebGPUCommandEncoder,
        source_id: WebGPUBuffer,
        source_offset: u64,
        destination_id: WebGPUBuffer,
        destination_offset: u64,
        size: u64,
    },
    CreateBindGroup {
        device_id: WebGPUDevice,
        bind_group_id: WebGPUBindGroup,
        bind_group_layout_id: WebGPUBindGroupLayout,
        bindings: Vec<BindGroupEntry>,
    },
    CreateBindGroupLayout {
        device_id: WebGPUDevice,
        bind_group_layout_id: WebGPUBindGroupLayout,
        bindings: Vec<BindGroupLayoutEntry>,
    },
    CreateBuffer {
        device_id: WebGPUDevice,
        buffer_id: WebGPUBuffer,
        descriptor: BufferDescriptor,
    },
    CreateCommandEncoder {
        device_id: WebGPUDevice,
        command_encoder_id: WebGPUCommandEncoder,
    },
    CreateComputePipeline {
        device_id: WebGPUDevice,
        compute_pipeline_id: WebGPUComputePipeline,
        pipeline_layout_id: WebGPUPipelineLayout,
        program_id: WebGPUShaderModule,
        entry_point: String,
    },
    CreatePipelineLayout {
        device_id: WebGPUDevice,
        pipeline_layout_id: WebGPUPipelineLayout,
        bind_group_layouts: Vec<WebGPUBindGroupLayout>,
    },
    CreateRenderPipeline {
        device_id: WebGPUDevice,
        render_pipeline_id: WebGPURenderPipeline,
        descriptor: RenderPipelineDescriptor,
    },
    CreateSampler {
        device_id: WebGPUDevice,
        sampler_id: WebGPUSampler,
        descriptor: OpaqueDescriptor,
    },
    CreateShaderModule {
        device_id: WebGPUDevice,
        program_id: WebGPUShaderModule,
        program: Vec<u32>,
    },
    CreateTexture {
        device_id: WebGPUDevice,
        texture_id: WebGPUTexture,
        descriptor: OpaqueDescriptor,
    },
    CreateTextureView {
        texture_id: WebGPUTexture,
        texture_view_id: WebGPUTextureView,
        descriptor: OpaqueDescriptor,
    },
    DestroyBuffer(WebGPUBuffer),
    DestroyTexture(WebGPUTexture),
    RunComputePass {
        command_encoder_id: WebGPUCommandEncoder,
        pass_data: Vec<u8>,
    },
    RunRenderPass {
        command_encoder_id: WebGPUCommandEncoder,
        pass_data: Vec<u8>,
    },
    Submit {
        queue_id: WebGPUQueue,
        command_buffers: Vec<WebGPUCommandBuffer>,
    },
    /// Copies the full image extent of `texture_id` into the staging buffer,
    /// one row per `stride` bytes.
    CopyTextureToBuffer {
        command_encoder_id: WebGPUCommandEncoder,
        texture_id: WebGPUTexture,
        buffer_id: WebGPUBuffer,
        stride: u32,
        width: u32,
        height: u32,
    },
    /// Submits the present pass's finished encoder to the swapchain's queue.
    SubmitPresentEncoder {
        queue_id: WebGPUQueue,
        command_encoder_id: WebGPUCommandEncoder,
    },
    /// Asks for read access to the staging buffer's first `size` bytes.
    BufferMapAsync {
        buffer_id: WebGPUBuffer,
        size: u64,
    },
    /// Blocks until the device reports outstanding work, the map request
    /// included, as done.
    DevicePoll {
        device_id: WebGPUDevice,
    },
    /// Reads the mapped staging bytes back.
    BufferGetMappedRange {
        buffer_id: WebGPUBuffer,
        size: u64,
    },
    BufferUnmap {
        buffer_id: WebGPUBuffer,
    },
    /// Writes bytes back into a backend buffer.
    SetBufferSubData {
        device_id: WebGPUDevice,
        buffer_id: WebGPUBuffer,
        data: Vec<u8>,
    },
    /// Releases the backend's global state, cascade-freeing every
    /// outstanding resource. Emitted once, on termination.
    FreeGlobal,
}

/// One one-way transaction to the compositor.
#[derive(Debug, PartialEq, Eq)]
pub enum CompositorOp {
    /// Registers a new compositor image under `key`.
    AddImage {
        key: u64,
        desc: ImageDescriptor,
        data: ImageData,
    },
    /// Updates the image under `key`, with the whole image dirty.
    UpdateImage {
        key: u64,
        desc: ImageDescriptor,
        data: ImageData,
    },
    /// Deletes the image under `key`.
    DeleteImage {
        key: u64,
    },
}

/// One reply delivered through a request's one-shot reply handle.
#[derive(Debug, PartialEq, Eq)]
pub enum Reply {
    /// Acknowledgement of termination.
    Ack,
    /// The external image id minted for a new context.
    ExternalId(u64),
    /// The compositor image key generated for a new swapchain.
    ImageKey(u64),
    /// Answer to an adapter or device request.
    Response(WebGPUResponseResult),
}

/// One observable effect of handling a request.
#[derive(Debug, PartialEq, Eq)]
pub enum Action {
    /// A call into the GPU backend.
    Backend(BackendOp),
    /// A one-way transaction to the compositor.
    Compositor(CompositorOp),
    /// A reply to the request's sender.
    Reply(Reply),
    /// The one-way shutdown notification to the actor's upstream consumer.
    NotifyShutdown,
}

/// Whether the action is a reply to a requester.
pub open spec fn is_reply(a: Action) -> bool {
    a is Reply
}

/// Whether the action is the upstream shutdown notification.
pub open spec fn is_shutdown(a: Action) -> bool {
    a is NotifyShutdown
}

/// Whether the action is a compositor update-image transaction.
pub open spec fn is_update_image(a: Action) -> bool {
    match a {
        Action::Compositor(CompositorOp::UpdateImage { .. }) => true,
        _ => false,
    }
}

/// How many actions of a sequence satisfy a predicate.
pub open spec fn count_matching(s: Seq<Action>, p: spec_fn(Action) -> bool) -> nat
    decreases s.len(),
{
    if s.len() == 0 {
        0
    } else {
        count_matching(s.drop_last(), p) + if p(s.last()) {
            1nat
        } else {
            0nat
        }
    }
}

/// How many replies a sequence of actions delivers.
pub open spec fn count_replies(s: Seq<Action>) -> nat {
    count_matching(s, |a: Action| is_reply(a))
}

/// How many upstream shutdown notifications a sequence of actions delivers.
pub open spec fn count_shutdowns(s: Seq<Action>) -> nat {
    count_matching(s, |a: Action| is_shutdown(a))
}

/// How many compositor update-image transactions a sequence of actions
/// emits.
pub open spec fn count_update_images(s: Seq<Action>) -> nat {
    count_matching(s, |a: Action| is_update_image(a))
}

/// Counting over a concatenation sums the two counts.
pub proof fn lemma_count_concat(a: Seq<Action>, b: Seq<Action>, p: spec_fn(Action) -> bool)
    ensures
        count_matching(a + b, p) == count_matching(a, p) + count_matching(b, p),
    decreases b.len(),
{
    if b.len() == 0 {
        assert(a + b =~= a);
    } else {
        assert((a + b).drop_last() =~= a + b.drop_last());
        assert((a + b).last() == b.last());
        lemma_count_concat(a, b.drop_last(), p);
    }
}

} // verus!
