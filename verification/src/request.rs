//! The request/response contract between producers and the actor.
//!
//! A request is a closed tagged union of operation kinds; each variant
//! carries the identifiers and parameters for one backend action. Requests
//! that need an answer are paired with exactly one reply, success or error.
//! Backend results that a request's handling depends on (an adapter pick, a
//! device grant, a generated image key, the mapped staging bytes) arrive as
//! a [`BackendInput`] event beside the request, so that every decision the
//! actor takes is a function of plain values.

use vstd::prelude::*;

use crate::ids::{
    WebGPUAdapter, WebGPUBindGroup, WebGPUBindGroupLayout, WebGPUBuffer, WebGPUCommandBuffer,
    WebGPUCommandEncoder, WebGPUComputePipeline, WebGPUDevice, WebGPUPipelineLayout, WebGPUQueue,
    WebGPURenderPipeline, WebGPUSampler, WebGPUShaderModule, WebGPUTexture, WebGPUTextureView,
};
use crate::present::{ImageData, ImageDescriptor};

verus! {

/// Handle to the actor's request channel. Producers hold one; the actor
/// itself keeps one so that adapter replies can carry a channel bound to the
/// same actor.
#[derive(Clone, Copy, Debug, PartialEq, Eq, Structural)]
pub struct WebGPU(pub u64);

/// Staging and copy buffers may be mapped for reading.
pub const BUFFER_USAGE_MAP_READ: u32 = 1;

/// Staging and copy buffers may be the destination of a copy.
pub const BUFFER_USAGE_COPY_DST: u32 = 8;

/// Descriptor of a backend buffer.
#[derive(Debug, PartialEq, Eq)]
pub struct BufferDescriptor {
    pub label: Option<String>,
    pub size: u64,
    pub usage: u32,
    pub mapped_at_creation: bool,
}

/// An opaque descriptor payload that the actor forwards to the backend
/// untouched and never reads.
#[derive(Debug, PartialEq, Eq)]
pub struct OpaqueDescriptor(pub Vec<u8>);

/// One resource bound by a bind group entry.
#[derive(Debug, PartialEq, Eq)]
pub enum BindingResource {
    Buffer { buffer: WebGPUBuffer, offset: u64, size: u64 },
    Sampler(WebGPUSampler),
    TextureView(WebGPUTextureView),
}

/// One entry of a bind group.
#[derive(Debug, PartialEq, Eq)]
pub struct BindGroupEntry {
    pub binding: u32,
    pub resource: BindingResource,
}

/// One entry of a bind group layout: the binding slot, the shader stages
/// that see it, and the binding type tag.
#[derive(Clone, Copy, Debug, PartialEq, Eq, Structural)]
pub struct BindGroupLayoutEntry {
    pub binding: u32,
    pub visibility: u32,
    pub ty: u32,
}

/// Device capabilities asked for by a device request.
#[derive(Clone, Copy, Debug, PartialEq, Eq, Structural)]
pub struct DeviceDescriptor {
    pub anisotropic_filtering: bool,
    pub max_bind_groups: u32,
}

/// Preference used when picking among the backend's adapters.
#[derive(Clone, Copy, Debug, PartialEq, Eq, Structural)]
pub enum PowerPreference {
    Default,
    LowPower,
    HighPerformance,
}

/// Constraints of an adapter request.
#[derive(Clone, Copy, Debug, PartialEq, Eq, Structural)]
pub struct RequestAdapterOptions {
    pub power_preference: PowerPreference,
}

/// Descriptor of a render pipeline. The parts the actor never reads are
/// carried as opaque payloads.
#[derive(Debug, PartialEq, Eq)]
pub struct RenderPipelineDescriptor {
    pub pipeline_layout_id: WebGPUPipelineLayout,
    pub vertex_module: WebGPUShaderModule,
    pub vertex_entry_point: String,
    pub fragment_module: Option<WebGPUShaderModule>,
    pub fragment_entry_point: Option<String>,
    pub primitive_topology: u32,
    pub rasterization_state: OpaqueDescriptor,
    pub color_states: OpaqueDescriptor,
    pub depth_stencil_state: Option<OpaqueDescriptor>,
    pub vertex_state: OpaqueDescriptor,
    pub sample_count: u32,
    pub sample_mask: u32,
    pub alpha_to_coverage_enabled: bool,
}

/// A request to the actor: a closed tagged union of operation kinds.
pub enum WebGPURequest {
    CommandEncoderFinish {
        command_encoder_id: WebGPUCommandEncoder,
    },
    CopyBufferToBuffer {
        command_encoder_id: WebGPUCommandEncoder,
        source_id: WebGPUBuffer,
        source_offset: u64,
        destination_id: WebGPUBuffer,
        destination_offset: u64,
        size: u64,
    },
    CreateBindGroup {
        device_id: WebGPUDevice,
        bind_group_id: WebGPUBindGroup,
        bind_group_layout_id: WebGPUBindGroupLayout,
        bindings: Vec<BindGroupEntry>,
    },
    CreateBindGroupLayout {
        device_id: WebGPUDevice,
        bind_group_layout_id: WebGPUBindGroupLayout,
        bindings: Vec<BindGroupLayoutEntry>,
    },
    CreateBuffer {
        device_id: WebGPUDevice,
        buffer_id: WebGPUBuffer,
        descriptor: BufferDescriptor,
    },
    CreateCommandEncoder {
        device_id: WebGPUDevice,
        command_encoder_id: WebGPUCommandEncoder,
    },
    CreateComputePipeline {
        device_id: WebGPUDevice,
        compute_pipeline_id: WebGPUComputePipeline,
        pipeline_layout_id: WebGPUPipelineLayout,
        program_id: WebGPUShaderModule,
        entry_point: String,
    },
    /// Asks for a fresh compositor-facing external image id; replies with it.
    CreateContext,
    CreatePipelineLayout {
        device_id: WebGPUDevice,
        pipeline_layout_id: WebGPUPipelineLayout,
        bind_group_layouts: Vec<WebGPUBindGroupLayout>,
    },
    CreateRenderPipeline {
        device_id: WebGPUDevice,
        render_pipeline_id: WebGPURenderPipeline,
        descriptor: RenderPipelineDescriptor,
    },
    CreateSampler {
        device_id: WebGPUDevice,
        sampler_id: WebGPUSampler,
        descriptor: OpaqueDescriptor,
    },
    CreateShaderModule {
        device_id: WebGPUDevice,
        program_id: WebGPUShaderModule,
        program: Vec<u32>,
    },
    /// Registers presentation state for `external_id`, allocates its staging
    /// buffer, and announces the image to the compositor; replies with the
    /// generated compositor image key.
    CreateSwapChain {
        device_id: WebGPUDevice,
        buffer_id: WebGPUBuffer,
        external_id: u64,
        image_desc: ImageDescriptor,
        image_data: ImageData,
    },
    CreateTexture {
        device_id: WebGPUDevice,
        texture_id: WebGPUTexture,
        descriptor: OpaqueDescriptor,
    },
    CreateTextureView {
        texture_id: WebGPUTexture,
        texture_view_id: WebGPUTextureView,
        descriptor: OpaqueDescriptor,
    },
    DestroyBuffer(WebGPUBuffer),
    /// Removes `external_id`'s presentation state, frees its staging buffer,
    /// and deletes the compositor image. A no-op for an unknown id.
    DestroySwapChain {
        external_id: u64,
        image_key: u64,
    },
    DestroyTexture(WebGPUTexture),
    /// Stops the actor: notifies its upstream consumer of shutdown, releases
    /// the backend's global state, then acknowledges the caller, in that
    /// order.
    Exit,
    /// Asks for an adapter matching `options` among the candidate ids;
    /// replies with the pick or with an error.
    RequestAdapter {
        options: RequestAdapterOptions,
        ids: Vec<WebGPUAdapter>,
    },
    /// Asks the adapter for a device; replies with the device and queue
    /// identifiers or with the backend's error.
    RequestDevice {
        adapter_id: WebGPUAdapter,
        descriptor: DeviceDescriptor,
        device_id: WebGPUDevice,
    },
    RunComputePass {
        command_encoder_id: WebGPUCommandEncoder,
        pass_data: Vec<u8>,
    },
    RunRenderPass {
        command_encoder_id: WebGPUCommandEncoder,
        pass_data: Vec<u8>,
    },
    Submit {
        queue_id: WebGPUQueue,
        command_buffers: Vec<WebGPUCommandBuffer>,
    },
    /// Copies the rendered texture into `external_id`'s staging buffer, waits
    /// for the mapped bytes, stores them, and updates the compositor image.
    /// One-way: never replies; a no-op for an unknown id.
    SwapChainPresent {
        external_id: u64,
        texture_id: WebGPUTexture,
        encoder_id: WebGPUCommandEncoder,
        image_key: u64,
    },
    UnmapBuffer {
        device_id: WebGPUDevice,
        buffer_id: WebGPUBuffer,
        array_buffer: Vec<u8>,
    },
}

/// Why a reply-bearing request failed.
#[derive(Debug, PartialEq, Eq)]
pub enum WebGPUError {
    /// No backend adapter matched the request's constraints.
    AdapterNotFound,
    /// The backend reported the carried error message.
    Backend(String),
}

/// Success payload of a reply-bearing request.
#[derive(Debug, PartialEq, Eq)]
pub enum WebGPUResponse {
    RequestAdapter {
        adapter_name: String,
        adapter_id: WebGPUAdapter,
        channel: WebGPU,
    },
    RequestDevice {
        device_id: WebGPUDevice,
        queue_id: WebGPUQueue,
        descriptor: DeviceDescriptor,
    },
}

/// A reply: either a success payload or an error.
pub type WebGPUResponseResult = Result<WebGPUResponse, WebGPUError>;

/// The backend adapter an adapter request was matched with.
#[derive(Debug, PartialEq, Eq)]
pub struct AdapterInfo {
    pub adapter_id: WebGPUAdapter,
    pub name: String,
}

/// The backend's contribution to one request's handling. Requests whose
/// outcome depends on no backend result carry [`BackendInput::NoInput`].
pub enum BackendInput {
    NoInput,
    /// Result of picking an adapter: the match, or nothing.
    AdapterPick(Option<AdapterInfo>),
    /// Result of asking an adapter for a device.
    DeviceResult(Result<(), String>),
    /// Compositor image key generated for a new swapchain.
    GeneratedImageKey(u64),
    /// External image id minted for a new context.
    GeneratedExternalId(u64),
    /// The staging buffer's bytes once the backend reports the blocking map
    /// as complete, or the failure to map.
    MappedBytes(Result<Vec<u8>, String>),
}

/// Which [`BackendInput`] variant each request kind is handled with.
pub open spec fn input_matches(req: WebGPURequest, input: BackendInput) -> bool {
    match req {
        WebGPURequest::CreateContext => input is GeneratedExternalId,
        WebGPURequest::CreateSwapChain { .. } => input is GeneratedImageKey,
        WebGPURequest::RequestAdapter { .. } => input is AdapterPick,
        WebGPURequest::RequestDevice { .. } => input is DeviceResult,
        WebGPURequest::SwapChainPresent { .. } => input is MappedBytes,
        _ => input is NoInput,
    }
}

/// Whether the request carries a reply handle: such a request is answered
/// exactly once, all others never.
pub open spec fn needs_reply(req: WebGPURequest) -> bool {
    match req {
        WebGPURequest::CreateContext => true,
        WebGPURequest::CreateSwapChain { .. } => true,
        WebGPURequest::Exit => true,
        WebGPURequest::RequestAdapter { .. } => true,
        WebGPURequest::RequestDevice { .. } => true,
        _ => false,
    }
}

} // verus!
