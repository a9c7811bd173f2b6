//! Strongly typed resource identifiers.
//!
//! Every backend resource is named by an opaque identifier that is unique for
//! the resource's lifetime and carries its kind in the type. One wrapper type
//! exists per resource kind, so that an identifier of one kind can never be
//! passed where another kind is expected.

use vstd::prelude::*;

verus! {

/// Identifier of a backend adapter.
#[derive(Clone, Copy, Debug, PartialEq, Eq, Hash, Structural)]
pub struct WebGPUAdapter(pub u64);

/// Identifier of a backend bind group.
#[derive(Clone, Copy, Debug, PartialEq, Eq, Hash, Structural)]
pub struct WebGPUBindGroup(pub u64);

/// Identifier of a backend bind group layout.
#[derive(Clone, Copy, Debug, PartialEq, Eq, Hash, Structural)]
pub struct WebGPUBindGroupLayout(pub u64);

/// Identifier of a backend buffer.
#[derive(Clone, Copy, Debug, PartialEq, Eq, Hash, Structural)]
pub struct WebGPUBuffer(pub u64);

/// Identifier of a finished backend command buffer.
#[derive(Clone, Copy, Debug, PartialEq, Eq, Hash, Structural)]
pub struct WebGPUCommandBuffer(pub u64);

/// Identifier of a backend command encoder.
#[derive(Clone, Copy, Debug, PartialEq, Eq, Hash, Structural)]
pub struct WebGPUCommandEncoder(pub u64);

/// Identifier of a backend compute pipeline.
#[derive(Clone, Copy, Debug, PartialEq, Eq, Hash, Structural)]
pub struct WebGPUComputePipeline(pub u64);

/// Identifier of a backend device.
#[derive(Clone, Copy, Debug, PartialEq, Eq, Hash, Structural)]
pub struct WebGPUDevice(pub u64);

/// Identifier of a backend pipeline layout.
#[derive(Clone, Copy, Debug, PartialEq, Eq, Hash, Structural)]
pub struct WebGPUPipelineLayout(pub u64);

/// Identifier of a backend queue.
#[derive(Clone, Copy, Debug, PartialEq, Eq, Hash, Structural)]
pub struct WebGPUQueue(pub u64);

/// Identifier of a backend render pipeline.
#[derive(Clone, Copy, Debug, PartialEq, Eq, Hash, Structural)]
pub struct WebGPURenderPipeline(pub u64);

/// Identifier of a backend sampler.
#[derive(Clone, Copy, Debug, PartialEq, Eq, Hash, Structural)]
pub struct WebGPUSampler(pub u64);

/// Identifier of a backend shader module.
#[derive(Clone, Copy, Debug, PartialEq, Eq, Hash, Structural)]
pub struct WebGPUShaderModule(pub u64);

/// Identifier of a backend swapchain.
#[derive(Clone, Copy, Debug, PartialEq, Eq, Hash, Structural)]
pub struct WebGPUSwapChain(pub u64);

/// Identifier of a backend texture.
#[derive(Clone, Copy, Debug, PartialEq, Eq, Hash, Structural)]
pub struct WebGPUTexture(pub u64);

/// Identifier of a backend texture view.
#[derive(Clone, Copy, Debug, PartialEq, Eq, Hash, Structural)]
pub struct WebGPUTextureView(pub u64);

} // verus!
