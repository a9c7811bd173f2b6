//! The GPU actor: the single consumer of the request channel.
//!
//! The actor owns the backend's global state exclusively and handles one
//! request at a time, so every backend call it makes belongs to exactly one
//! request and no two calls overlap. [`step_state`] and [`step_actions`] are
//! the actor's transition function: for a given state, request, and backend
//! input they give the successor state and the exact effect sequence, and
//! [`WGPU::handle_request`] is proved to realize them.

use std::collections::HashMap;

use vstd::prelude::*;

use crate::actions::{Action, BackendOp, CompositorOp, Reply};
use crate::ids::{WebGPUAdapter, WebGPUBuffer, WebGPUCommandEncoder, WebGPUDevice, WebGPUQueue, WebGPUTexture};
use crate::present::{
    buffer_stride_for_width, stride_of, ImageData, ImageDescriptor, PresentationData,
    PresentationView, COPY_BYTES_PER_ROW_ALIGNMENT,
};
use crate::request::{
    input_matches, BackendInput, BufferDescriptor, WebGPU, WebGPUError, WebGPURequest,
    WebGPUResponse, BUFFER_USAGE_COPY_DST, BUFFER_USAGE_MAP_READ,
};

verus! {

broadcast use vstd::std_specs::hash::group_hash_axioms;

/// Mathematical view of the actor's state.
#[verifier::ext_equal]
pub ghost struct ActorView {
    /// The actor's own request channel, echoed in adapter replies.
    pub sender: WebGPU,
    /// Adapters granted so far, in grant order (append-only bookkeeping).
    pub adapters: Seq<WebGPUAdapter>,
    /// Devices granted so far, in grant order (append-only bookkeeping).
    pub devices: Seq<WebGPUDevice>,
    /// The presentation table: per-swapchain state keyed by external id.
    pub images: Map<u64, PresentationView>,
    /// False once a termination request has been handled; nothing further is
    /// processed.
    pub running: bool,
}

/// The views of a presentation table's records.
pub open spec fn views_of(m: Map<u64, PresentationData>) -> Map<u64, PresentationView> {
    Map::new(|k: u64| m.contains_key(k), |k: u64| m[k]@)
}

/// Well-formedness of one presentation record: non-negative dimensions, and
/// a staging buffer size that fits the 32-bit arithmetic the pipeline uses.
pub open spec fn entry_wf(pd: PresentationView) -> bool {
    &&& 0 <= pd.width
    &&& 0 <= pd.height
    &&& pd.buffer_stride as int * pd.height as int <= u32::MAX
}

/// Well-formedness of the actor's state: every presentation record is
/// well-formed.
pub open spec fn actor_wf(v: ActorView) -> bool {
    forall|id: u64| #[trigger] v.images.contains_key(id) ==> entry_wf(v.images[id])
}

/// Byte size of the staging buffer backing a swapchain with the given image
/// descriptor: the aligned row stride times the pixel height.
pub open spec fn swapchain_buffer_size(image_desc: ImageDescriptor) -> int {
    stride_of(image_desc.width as int) * image_desc.height
}

/// What machine limits force of a request before it can be handled: a new
/// swapchain's dimensions must be non-negative and its staging buffer size
/// must fit the 32-bit arithmetic the presentation pipeline uses.
pub open spec fn req_wf(req: WebGPURequest) -> bool {
    match req {
        WebGPURequest::CreateSwapChain { image_desc, .. } => {
            &&& 0 <= image_desc.width
            &&& 0 <= image_desc.height
            &&& 4 * image_desc.width + COPY_BYTES_PER_ROW_ALIGNMENT <= u32::MAX
            &&& swapchain_buffer_size(image_desc) <= u32::MAX
        },
        _ => true,
    }
}

/// The presentation record registered for a new swapchain: staging bytes
/// seeded with placeholder values, the queue the owning device's.
pub open spec fn swapchain_entry(
    device_id: WebGPUDevice,
    buffer_id: WebGPUBuffer,
    image_desc: ImageDescriptor,
    image_data: ImageData,
) -> PresentationView {
    PresentationView {
        device_id,
        queue_id: WebGPUQueue(device_id.0),
        data: Seq::new(swapchain_buffer_size(image_desc) as nat, |i: int| 255u8),
        width: image_desc.width,
        height: image_desc.height,
        buffer_id,
        buffer_stride: stride_of(image_desc.width as int) as u32,
        image_desc,
        image_data,
    }
}

/// Byte count mapped and read back by one present of the given record.
pub open spec fn present_buffer_size(pd: PresentationView) -> u64 {
    (pd.height as int * pd.buffer_stride as int) as u64
}

/// The backend calls that one present issues before waiting on the map:
/// encode, copy the full extent, finish, submit, request the map, poll.
pub open spec fn present_prefix(
    pd: PresentationView,
    texture_id: WebGPUTexture,
    encoder_id: WebGPUCommandEncoder,
) -> Seq<Action> {
    seq![
        Action::Backend(
            BackendOp::CreateCommandEncoder { device_id: pd.device_id, command_encoder_id: encoder_id },
        ),
        Action::Backend(
            BackendOp::CopyTextureToBuffer {
                command_encoder_id: encoder_id,
                texture_id,
                buffer_id: pd.buffer_id,
                stride: pd.buffer_stride,
                width: pd.width as u32,
                height: pd.height as u32,
            },
        ),
        Action::Backend(BackendOp::CommandEncoderFinish { command_encoder_id: encoder_id }),
        Action::Backend(
            BackendOp::SubmitPresentEncoder { queue_id: pd.queue_id, command_encoder_id: encoder_id },
        ),
        Action::Backend(
            BackendOp::BufferMapAsync { buffer_id: pd.buffer_id, size: present_buffer_size(pd) },
        ),
        Action::Backend(BackendOp::DevicePoll { device_id: pd.device_id }),
    ]
}

/// Successor state of handling one request with the given backend input.
pub open spec fn step_state(pre: ActorView, req: WebGPURequest, input: BackendInput) -> ActorView {
    if !pre.running {
        pre
    } else {
        match req {
            WebGPURequest::CreateSwapChain {
                device_id,
                buffer_id,
                external_id,
                image_desc,
                image_data,
            } => ActorView {
                images: pre.images.insert(
                    external_id,
                    swapchain_entry(device_id, buffer_id, image_desc, image_data),
                ),
                ..pre
            },
            WebGPURequest::DestroySwapChain { external_id, .. } => if pre.images.contains_key(
                external_id,
            ) {
                ActorView { images: pre.images.remove(external_id), ..pre }
            } else {
                pre
            },
            WebGPURequest::SwapChainPresent { external_id, .. } => match input {
                BackendInput::MappedBytes(r) => match r {
                    Ok(bytes) => if pre.images.contains_key(external_id) {
                        ActorView {
                            images: pre.images.insert(
                                external_id,
                                PresentationView { data: bytes@, ..pre.images[external_id] },
                            ),
                            ..pre
                        }
                    } else {
                        pre
                    },
                    Err(_) => pre,
                },
                _ => pre,
            },
            WebGPURequest::RequestAdapter { .. } => match input {
                BackendInput::AdapterPick(pick) => match pick {
                    Some(info) => ActorView { adapters: pre.adapters.push(info.adapter_id), ..pre },
                    None => pre,
                },
                _ => pre,
            },
            WebGPURequest::RequestDevice { device_id, .. } => match input {
                BackendInput::DeviceResult(r) => match r {
                    Ok(_) => ActorView { devices: pre.devices.push(device_id), ..pre },
                    Err(_) => pre,
                },
                _ => pre,
            },
            WebGPURequest::Exit => ActorView { running: false, ..pre },
            _ => pre,
        }
    }
}

/// Effect sequence of handling one request with the given backend input, in
/// emission order.
pub open spec fn step_actions(pre: ActorView, req: WebGPURequest, input: BackendInput) -> Seq<
    Action,
> {
    if !pre.running {
        Seq::empty()
    } else {
        match req {
            WebGPURequest::CommandEncoderFinish { command_encoder_id } => seq![
                Action::Backend(BackendOp::CommandEncoderFinish { command_encoder_id }),
            ],
            WebGPURequest::CopyBufferToBuffer {
                command_encoder_id,
                source_id,
                source_offset,
                destination_id,
                destination_offset,
                size,
            } => seq![
                Action::Backend(
                    BackendOp::CopyBufferToBuffer {
                        command_encoder_id,
                        source_id,
                        source_offset,
                        destination_id,
                        destination_offset,
                        size,
                    },
                ),
            ],
            WebGPURequest::CreateBindGroup {
                device_id,
                bind_group_id,
                bind_group_layout_id,
                bindings,
            } => seq![
                Action::Backend(
                    BackendOp::CreateBindGroup {
                        device_id,
                        bind_group_id,
                        bind_group_layout_id,
                        bindings,
                    },
                ),
            ],
            WebGPURequest::CreateBindGroupLayout { device_id, bind_group_layout_id, bindings } => seq![
                Action::Backend(
                    BackendOp::CreateBindGroupLayout { device_id, bind_group_layout_id, bindings },
                ),
            ],
            WebGPURequest::CreateBuffer { device_id, buffer_id, descriptor } => seq![
                Action::Backend(BackendOp::CreateBuffer { device_id, buffer_id, descriptor }),
            ],
            WebGPURequest::CreateCommandEncoder { device_id, command_encoder_id } => seq![
                Action::Backend(BackendOp::CreateCommandEncoder { device_id, command_encoder_id }),
            ],
            WebGPURequest::CreateComputePipeline {
                device_id,
                compute_pipeline_id,
                pipeline_layout_id,
                program_id,
                entry_point,
            } => seq![
                Action::Backend(
                    BackendOp::CreateComputePipeline {
                        device_id,
                        compute_pipeline_id,
                        pipeline_layout_id,
                        program_id,
                        entry_point,
                    },
                ),
            ],
            WebGPURequest::CreateContext => match input {
                BackendInput::GeneratedExternalId(id) => seq![
                    Action::Reply(Reply::ExternalId(id)),
                ],
                _ => Seq::empty(),
            },
            WebGPURequest::CreatePipelineLayout {
                device_id,
                pipeline_layout_id,
                bind_group_layouts,
            } => seq![
                Action::Backend(
                    BackendOp::CreatePipelineLayout {
                        device_id,
                        pipeline_layout_id,
                        bind_group_layouts,
                    },
                ),
            ],
            WebGPURequest::CreateRenderPipeline { device_id, render_pipeline_id, descriptor } => seq![
                Action::Backend(
                    BackendOp::CreateRenderPipeline { device_id, render_pipeline_id, descriptor },
                ),
            ],
            WebGPURequest::CreateSampler { device_id, sampler_id, descriptor } => seq![
                Action::Backend(BackendOp::CreateSampler { device_id, sampler_id, descriptor }),
            ],
            WebGPURequest::CreateShaderModule { device_id, program_id, program } => seq![
                Action::Backend(BackendOp::CreateShaderModule { device_id, program_id, program }),
            ],
            WebGPURequest::CreateSwapChain {
                device_id,
                buffer_id,
                external_id,
                image_desc,
                image_data,
            } => match input {
                BackendInput::GeneratedImageKey(key) => seq![
                    Action::Backend(
                        BackendOp::CreateBuffer {
                            device_id,
                            buffer_id,
                            descriptor: BufferDescriptor {
                                label: None,
                                size: swapchain_buffer_size(image_desc) as u64,
                                usage: BUFFER_USAGE_MAP_READ | BUFFER_USAGE_COPY_DST,
                                mapped_at_creation: false,
                            },
                        },
                    ),
                    Action::Reply(Reply::ImageKey(key)),
                    Action::Compositor(
                        CompositorOp::AddImage { key, desc: image_desc, data: image_data },
                    ),
                ],
                _ => Seq::empty(),
            },
            WebGPURequest::CreateTexture { device_id, texture_id, descriptor } => seq![
                Action::Backend(BackendOp::CreateTexture { device_id, texture_id, descriptor }),
            ],
            WebGPURequest::CreateTextureView { texture_id, texture_view_id, descriptor } => seq![
                Action::Backend(
                    BackendOp::CreateTextureView { texture_id, texture_view_id, descriptor },
                ),
            ],
            WebGPURequest::DestroyBuffer(buffer_id) => seq![
                Action::Backend(BackendOp::DestroyBuffer(buffer_id)),
            ],
            WebGPURequest::DestroySwapChain { external_id, image_key } => if pre.images.contains_key(
                external_id,
            ) {
                seq![
                    Action::Backend(BackendOp::DestroyBuffer(pre.images[external_id].buffer_id)),
                    Action::Compositor(CompositorOp::DeleteImage { key: image_key }),
                ]
            } else {
                Seq::empty()
            },
            WebGPURequest::DestroyTexture(texture_id) => seq![
                Action::Backend(BackendOp::DestroyTexture(texture_id)),
            ],
            WebGPURequest::Exit => seq![
                Action::NotifyShutdown,
                Action::Backend(BackendOp::FreeGlobal),
                Action::Reply(Reply::Ack),
            ],
            WebGPURequest::RequestAdapter { .. } => match input {
                BackendInput::AdapterPick(pick) => match pick {
                    Some(info) => seq![
                        Action::Reply(
                            Reply::Response(
                                Ok(
                                    WebGPUResponse::RequestAdapter {
                                        adapter_name: info.name,
                                        adapter_id: info.adapter_id,
                                        channel: pre.sender,
                                    },
                                ),
                            ),
                        ),
                    ],
                    None => seq![
                        Action::Reply(Reply::Response(Err(WebGPUError::AdapterNotFound))),
                    ],
                },
                _ => Seq::empty(),
            },
            WebGPURequest::RequestDevice { adapter_id: _, descriptor, device_id } => match input {
                BackendInput::DeviceResult(r) => match r {
                    Ok(_) => seq![
                        Action::Reply(
                            Reply::Response(
                                Ok(
                                    WebGPUResponse::RequestDevice {
                                        device_id,
                                        queue_id: WebGPUQueue(device_id.0),
                                        descriptor,
                                    },
                                ),
                            ),
                        ),
                    ],
                    Err(msg) => seq![
                        Action::Reply(Reply::Response(Err(WebGPUError::Backend(msg)))),
                    ],
                },
                _ => Seq::empty(),
            },
            WebGPURequest::RunComputePass { command_encoder_id, pass_data } => seq![
                Action::Backend(BackendOp::RunComputePass { command_encoder_id, pass_data }),
            ],
            WebGPURequest::RunRenderPass { command_encoder_id, pass_data } => seq![
                Action::Backend(BackendOp::RunRenderPass { command_encoder_id, pass_data }),
            ],
            WebGPURequest::Submit { queue_id, command_buffers } => seq![
                Action::Backend(BackendOp::Submit { queue_id, command_buffers }),
            ],
            WebGPURequest::SwapChainPresent { external_id, texture_id, encoder_id, image_key } => match input {
                BackendInput::MappedBytes(r) => if !pre.images.contains_key(external_id) {
                    Seq::empty()
                } else {
                    let pd = pre.images[external_id];
                    present_prefix(pd, texture_id, encoder_id) + match r {
                        Ok(_) => seq![
                            Action::Backend(
                                BackendOp::BufferGetMappedRange {
                                    buffer_id: pd.buffer_id,
                                    size: present_buffer_size(pd),
                                },
                            ),
                            Action::Compositor(
                                CompositorOp::UpdateImage {
                                    key: image_key,
                                    desc: pd.image_desc,
                                    data: pd.image_data,
                                },
                            ),
                            Action::Backend(BackendOp::BufferUnmap { buffer_id: pd.buffer_id }),
                        ],
                        Err(_) => seq![
                            Action::Backend(BackendOp::BufferUnmap { buffer_id: pd.buffer_id }),
                        ],
                    }
                },
                _ => Seq::empty(),
            },
            WebGPURequest::UnmapBuffer { device_id, buffer_id, array_buffer } => seq![
                Action::Backend(BackendOp::SetBufferSubData { device_id, buffer_id, data: array_buffer }),
            ],
        }
    }
}

/// Whether every request of a batch is well-formed and paired with the
/// matching kind of backend input.
pub open spec fn batch_wf(s: Seq<(WebGPURequest, BackendInput)>) -> bool {
    forall|i: int|
        0 <= i < s.len() ==> req_wf(#[trigger] s[i].0) && input_matches(s[i].0, s[i].1)
}

/// State after handling a whole batch of requests, first to last.
pub open spec fn batch_state(pre: ActorView, s: Seq<(WebGPURequest, BackendInput)>) -> ActorView
    decreases s.len(),
{
    if s.len() == 0 {
        pre
    } else {
        batch_state(step_state(pre, s[0].0, s[0].1), s.drop_first())
    }
}

/// Effect sequence of handling a whole batch of requests: each request's
/// effects in full, in arrival order, one request after the other.
pub open spec fn batch_actions(pre: ActorView, s: Seq<(WebGPURequest, BackendInput)>) -> Seq<
    Action,
>
    decreases s.len(),
{
    if s.len() == 0 {
        Seq::empty()
    } else {
        step_actions(pre, s[0].0, s[0].1) + batch_actions(
            step_state(pre, s[0].0, s[0].1),
            s.drop_first(),
        )
    }
}

/// The effect sequences of a batch's requests, one block per request, in
/// arrival order.
pub open spec fn request_blocks(pre: ActorView, s: Seq<(WebGPURequest, BackendInput)>) -> Seq<
    Seq<Action>,
>
    decreases s.len(),
{
    if s.len() == 0 {
        Seq::empty()
    } else {
        seq![step_actions(pre, s[0].0, s[0].1)].add(
            request_blocks(step_state(pre, s[0].0, s[0].1), s.drop_first()),
        )
    }
}

/// The actor's state at rest: its own channel handle, the bookkeeping lists
/// of granted adapters and devices, the presentation table, and whether it is
/// still running.
pub struct WGPU {
    /// The actor's own request channel handle.
    pub sender: WebGPU,
    /// Adapters granted so far, in grant order.
    pub adapters: Vec<WebGPUAdapter>,
    /// Devices granted so far, in grant order.
    pub devices: Vec<WebGPUDevice>,
    /// The presentation table, shared with the external image provider.
    pub wgpu_image_map: HashMap<u64, PresentationData>,
    /// False once a termination request has been handled.
    pub running: bool,
}

impl View for WGPU {
    type V = ActorView;

    open spec fn view(&self) -> ActorView {
        ActorView {
            sender: self.sender,
            adapters: self.adapters@,
            devices: self.devices@,
            images: views_of(self.wgpu_image_map@),
            running: self.running,
        }
    }
}

/// The state a fresh actor starts in: empty bookkeeping, empty presentation
/// table, running.
pub open spec fn initial_actor(sender: WebGPU) -> ActorView {
    ActorView {
        sender,
        adapters: Seq::empty(),
        devices: Seq::empty(),
        images: Map::empty(),
        running: true,
    }
}

impl WGPU {
    /// Whether every presentation record the actor holds is well-formed.
    pub open spec fn wf(&self) -> bool {
        actor_wf(self@)
    }

    /// A fresh actor bound to its own request channel handle.
    pub fn new(sender: WebGPU) -> (actor: Self)
        ensures
            actor@ == initial_actor(sender),
            actor.wf(),
    {
        let actor = WGPU {
            sender,
            adapters: Vec::new(),
            devices: Vec::new(),
            wgpu_image_map: HashMap::new(),
            running: true,
        };
        proof {
            assert(views_of(actor.wgpu_image_map@) =~= Map::<u64, PresentationView>::empty());
            assert(actor@ =~= initial_actor(sender));
        }
        actor
    }

    /// Handles one request: realizes exactly the transition that
    /// [`step_state`] and [`step_actions`] give for it.
    pub fn handle_request(&mut self, req: WebGPURequest, input: BackendInput) -> (out: Vec<Action>)
        requires
            old(self).wf(),
            req_wf(req),
            input_matches(req, input),
        ensures
            final(self).wf(),
            final(self)@ == step_state(old(self)@, req, input),
            out@ == step_actions(old(self)@, req, input),
    {
        let ghost pre = self@;
        let ghost greq = req;
        let ghost ginput = input;
        let mut out: Vec<Action> = Vec::new();
        if !self.running {
            proof {
                assert(out@ =~= step_actions(pre, greq, ginput));
            }
            return out;
        }
        match req {
            WebGPURequest::CommandEncoderFinish { command_encoder_id } => {
                out.push(Action::Backend(BackendOp::CommandEncoderFinish { command_encoder_id }));
                proof {
                    assert(out@ =~= step_actions(pre, greq, ginput));
                }
            },
            WebGPURequest::CopyBufferToBuffer {
                command_encoder_id,
                source_id,
                source_offset,
                destination_id,
                destination_offset,
                size,
            } => {
                out.push(
                    Action::Backend(
                        BackendOp::CopyBufferToBuffer {
                            command_encoder_id,
                            source_id,
                            source_offset,
                            destination_id,
                            destination_offset,
                            size,
                        },
                    ),
                );
                proof {
                    assert(out@ =~= step_actions(pre, greq, ginput));
                }
            },
            WebGPURequest::CreateBindGroup {
                device_id,
                bind_group_id,
                bind_group_layout_id,
                bindings,
            } => {
                out.push(
                    Action::Backend(
                        BackendOp::CreateBindGroup {
                            device_id,
                            bind_group_id,
                            bind_group_layout_id,
                            bindings,
                        },
                    ),
                );
                proof {
                    assert(out@ =~= step_actions(pre, greq, ginput));
                }
            },
            WebGPURequest::CreateBindGroupLayout { device_id, bind_group_layout_id, bindings } => {
                out.push(
                    Action::Backend(
                        BackendOp::CreateBindGroupLayout {
                            device_id,
                            bind_group_layout_id,
                            bindings,
                        },
                    ),
                );
                proof {
                    assert(out@ =~= step_actions(pre, greq, ginput));
                }
            },
            WebGPURequest::CreateBuffer { device_id, buffer_id, descriptor } => {
                out.push(Action::Backend(BackendOp::CreateBuffer { device_id, buffer_id, descriptor }));
                proof {
                    assert(out@ =~= step_actions(pre, greq, ginput));
                }
            },
            WebGPURequest::CreateCommandEncoder { device_id, command_encoder_id } => {
                out.push(
                    Action::Backend(BackendOp::CreateCommandEncoder { device_id, command_encoder_id }),
                );
                proof {
                    assert(out@ =~= step_actions(pre, greq, ginput));
                }
            },
            WebGPURequest::CreateComputePipeline {
                device_id,
                compute_pipeline_id,
                pipeline_layout_id,
                program_id,
                entry_point,
            } => {
                out.push(
                    Action::Backend(
                        BackendOp::CreateComputePipeline {
                            device_id,
                            compute_pipeline_id,
                            pipeline_layout_id,
                            program_id,
                            entry_point,
                        },
                    ),
                );
                proof {
                    assert(out@ =~= step_actions(pre, greq, ginput));
                }
            },
            WebGPURequest::CreateContext => {
                match input {
                    BackendInput::GeneratedExternalId(id) => {
                        out.push(Action::Reply(Reply::ExternalId(id)));
                        proof {
                            assert(out@ =~= step_actions(pre, greq, ginput));
                        }
                    },
                    _ => {
                        proof {
                            assert(false);
                        }
                    },
                }
            },
            WebGPURequest::CreatePipelineLayout {
                device_id,
                pipeline_layout_id,
                bind_group_layouts,
            } => {
                out.push(
                    Action::Backend(
                        BackendOp::CreatePipelineLayout {
                            device_id,
                            pipeline_layout_id,
                            bind_group_layouts,
                        },
                    ),
                );
                proof {
                    assert(out@ =~= step_actions(pre, greq, ginput));
                }
            },
            WebGPURequest::CreateRenderPipeline { device_id, render_pipeline_id, descriptor } => {
                out.push(
                    Action::Backend(
                        BackendOp::CreateRenderPipeline { device_id, render_pipeline_id, descriptor },
                    ),
                );
                proof {
                    assert(out@ =~= step_actions(pre, greq, ginput));
                }
            },
            WebGPURequest::CreateSampler { device_id, sampler_id, descriptor } => {
                out.push(Action::Backend(BackendOp::CreateSampler { device_id, sampler_id, descriptor }));
                proof {
                    assert(out@ =~= step_actions(pre, greq, ginput));
                }
            },
            WebGPURequest::CreateShaderModule { device_id, program_id, program } => {
                out.push(Action::Backend(BackendOp::CreateShaderModule { device_id, program_id, program }));
                proof {
                    assert(out@ =~= step_actions(pre, greq, ginput));
                }
            },
            WebGPURequest::CreateSwapChain {
                device_id,
                buffer_id,
                external_id,
                image_desc,
                image_data,
            } => {
                let key = match input {
                    BackendInput::GeneratedImageKey(k) => k,
                    _ => {
                        proof {
                            assert(false);
                        }
                        0u64
                    },
                };
                let width = image_desc.width;
                let height = image_desc.height;
                let buffer_stride = buffer_stride_for_width(width);
                let buffer_size_u32: u32 = buffer_stride * (height as u32);
                let data = crate::present::filled_bytes(255u8, buffer_size_u32 as usize);
                let pd = PresentationData {
                    device_id,
                    queue_id: WebGPUQueue(device_id.0),
                    data,
                    width,
                    height,
                    buffer_id,
                    buffer_stride,
                    image_desc,
                    image_data,
                };
                proof {
                    assert(pd@ =~= swapchain_entry(device_id, buffer_id, image_desc, image_data));
                }
                self.wgpu_image_map.insert(external_id, pd);
                out.push(
                    Action::Backend(
                        BackendOp::CreateBuffer {
                            device_id,
                            buffer_id,
                            descriptor: BufferDescriptor {
                                label: None,
                                size: buffer_size_u32 as u64,
                                usage: BUFFER_USAGE_MAP_READ | BUFFER_USAGE_COPY_DST,
                                mapped_at_creation: false,
                            },
                        },
                    ),
                );
                out.push(Action::Reply(Reply::ImageKey(key)));
                out.push(
                    Action::Compositor(CompositorOp::AddImage { key, desc: image_desc, data: image_data }),
                );
                proof {
                    assert(views_of(self.wgpu_image_map@) =~= pre.images.insert(
                        external_id,
                        swapchain_entry(device_id, buffer_id, image_desc, image_data),
                    ));
                    assert(self@ =~= step_state(pre, greq, ginput));
                    assert(out@ =~= step_actions(pre, greq, ginput));
                }
            },
            WebGPURequest::CreateTexture { device_id, texture_id, descriptor } => {
                out.push(Action::Backend(BackendOp::CreateTexture { device_id, texture_id, descriptor }));
                proof {
                    assert(out@ =~= step_actions(pre, greq, ginput));
                }
            },
            WebGPURequest::CreateTextureView { texture_id, texture_view_id, descriptor } => {
                out.push(
                    Action::Backend(
                        BackendOp::CreateTextureView { texture_id, texture_view_id, descriptor },
                    ),
                );
                proof {
                    assert(out@ =~= step_actions(pre, greq, ginput));
                }
            },
            WebGPURequest::DestroyBuffer(buffer_id) => {
                out.push(Action::Backend(BackendOp::DestroyBuffer(buffer_id)));
                proof {
                    assert(out@ =~= step_actions(pre, greq, ginput));
                }
            },
            WebGPURequest::DestroySwapChain { external_id, image_key } => {
                let buffer = match self.wgpu_image_map.get(&external_id) {
                    Some(pd) => Some(pd.buffer_id),
                    None => None,
                };
                match buffer {
                    Some(buffer_id) => {
                        self.wgpu_image_map.remove(&external_id);
                        out.push(Action::Backend(BackendOp::DestroyBuffer(buffer_id)));
                        out.push(Action::Compositor(CompositorOp::DeleteImage { key: image_key }));
                        proof {
                            assert(views_of(self.wgpu_image_map@) =~= pre.images.remove(external_id));
                            assert(self@ =~= step_state(pre, greq, ginput));
                            assert(out@ =~= step_actions(pre, greq, ginput));
                        }
                    },
                    None => {
                        proof {
                            assert(out@ =~= step_actions(pre, greq, ginput));
                        }
                    },
                }
            },
            WebGPURequest::DestroyTexture(texture_id) => {
                out.push(Action::Backend(BackendOp::DestroyTexture(texture_id)));
                proof {
                    assert(out@ =~= step_actions(pre, greq, ginput));
                }
            },
            WebGPURequest::Exit => {
                out.push(Action::NotifyShutdown);
                out.push(Action::Backend(BackendOp::FreeGlobal));
                out.push(Action::Reply(Reply::Ack));
                self.running = false;
                proof {
                    assert(self@ =~= step_state(pre, greq, ginput));
                    assert(out@ =~= step_actions(pre, greq, ginput));
                }
            },
            WebGPURequest::RequestAdapter { options: _, ids: _ } => {
                match input {
                    BackendInput::AdapterPick(pick) => {
                        match pick {
                            Some(info) => {
                                self.adapters.push(info.adapter_id);
                                out.push(
                                    Action::Reply(
                                        Reply::Response(
                                            Ok(
                                                WebGPUResponse::RequestAdapter {
                                                    adapter_name: info.name,
                                                    adapter_id: info.adapter_id,
                                                    channel: self.sender,
                                                },
                                            ),
                                        ),
                                    ),
                                );
                                proof {
                                    assert(self@ =~= step_state(pre, greq, ginput));
                                    assert(out@ =~= step_actions(pre, greq, ginput));
                                }
                            },
                            None => {
                                out.push(
                                    Action::Reply(Reply::Response(Err(WebGPUError::AdapterNotFound))),
                                );
                                proof {
                                    assert(out@ =~= step_actions(pre, greq, ginput));
                                }
                            },
                        }
                    },
                    _ => {
                        proof {
                            assert(false);
                        }
                    },
                }
            },
            WebGPURequest::RequestDevice { adapter_id: _, descriptor, device_id } => {
                match input {
                    BackendInput::DeviceResult(r) => {
                        match r {
                            Ok(_) => {
                                self.devices.push(device_id);
                                out.push(
                                    Action::Reply(
                                        Reply::Response(
                                            Ok(
                                                WebGPUResponse::RequestDevice {
                                                    device_id,
                                                    queue_id: WebGPUQueue(device_id.0),
                                                    descriptor,
                                                },
                                            ),
                                        ),
                                    ),
                                );
                                proof {
                                    assert(self@ =~= step_state(pre, greq, ginput));
                                    assert(out@ =~= step_actions(pre, greq, ginput));
                                }
                            },
                            Err(msg) => {
                                out.push(
                                    Action::Reply(Reply::Response(Err(WebGPUError::Backend(msg)))),
                                );
                                proof {
                                    assert(out@ =~= step_actions(pre, greq, ginput));
                                }
                            },
                        }
                    },
                    _ => {
                        proof {
                            assert(false);
                        }
                    },
                }
            },
            WebGPURequest::RunComputePass { command_encoder_id, pass_data } => {
                out.push(Action::Backend(BackendOp::RunComputePass { command_encoder_id, pass_data }));
                proof {
                    assert(out@ =~= step_actions(pre, greq, ginput));
                }
            },
            WebGPURequest::RunRenderPass { command_encoder_id, pass_data } => {
                out.push(Action::Backend(BackendOp::RunRenderPass { command_encoder_id, pass_data }));
                proof {
                    assert(out@ =~= step_actions(pre, greq, ginput));
                }
            },
            WebGPURequest::Submit { queue_id, command_buffers } => {
                out.push(Action::Backend(BackendOp::Submit { queue_id, command_buffers }));
                proof {
                    assert(out@ =~= step_actions(pre, greq, ginput));
                }
            },
            WebGPURequest::SwapChainPresent { external_id, texture_id, encoder_id, image_key } => {
                let found = match self.wgpu_image_map.get(&external_id) {
                    Some(pd) => Some(
                        (
                            pd.device_id,
                            pd.queue_id,
                            pd.buffer_id,
                            pd.buffer_stride,
                            pd.width,
                            pd.height,
                            pd.image_desc,
                            pd.image_data,
                        ),
                    ),
                    None => None,
                };
                match found {
                    None => {
                        proof {
                            assert(out@ =~= step_actions(pre, greq, ginput));
                        }
                    },
                    Some(
                        (
                            device_id,
                            queue_id,
                            buffer_id,
                            buffer_stride,
                            width,
                            height,
                            image_desc,
                            image_data,
                        ),
                    ) => {
                        proof {
                            assert(pre.images.contains_key(external_id));
                            assert(entry_wf(pre.images[external_id]));
                        }
                        let buffer_size_u32: u32 = (height as u32) * buffer_stride;
                        let buffer_size: u64 = buffer_size_u32 as u64;
                        out.push(
                            Action::Backend(
                                BackendOp::CreateCommandEncoder {
                                    device_id,
                                    command_encoder_id: encoder_id,
                                },
                            ),
                        );
                        out.push(
                            Action::Backend(
                                BackendOp::CopyTextureToBuffer {
                                    command_encoder_id: encoder_id,
                                    texture_id,
                                    buffer_id,
                                    stride: buffer_stride,
                                    width: width as u32,
                                    height: height as u32,
                                },
                            ),
                        );
                        out.push(
                            Action::Backend(
                                BackendOp::CommandEncoderFinish { command_encoder_id: encoder_id },
                            ),
                        );
                        out.push(
                            Action::Backend(
                                BackendOp::SubmitPresentEncoder {
                                    queue_id,
                                    command_encoder_id: encoder_id,
                                },
                            ),
                        );
                        out.push(
                            Action::Backend(BackendOp::BufferMapAsync { buffer_id, size: buffer_size }),
                        );
                        out.push(Action::Backend(BackendOp::DevicePoll { device_id }));
                        match input {
                            BackendInput::MappedBytes(r) => {
                                match r {
                                    Ok(bytes) => {
                                        out.push(
                                            Action::Backend(
                                                BackendOp::BufferGetMappedRange {
                                                    buffer_id,
                                                    size: buffer_size,
                                                },
                                            ),
                                        );
                                        let pd = PresentationData {
                                            device_id,
                                            queue_id,
                                            data: bytes,
                                            width,
                                            height,
                                            buffer_id,
                                            buffer_stride,
                                            image_desc,
                                            image_data,
                                        };
                                        proof {
                                            assert(pd@ =~= PresentationView {
                                                data: pd.data@,
                                                ..pre.images[external_id]
                                            });
                                        }
                                        self.wgpu_image_map.insert(external_id, pd);
                                        out.push(
                                            Action::Compositor(
                                                CompositorOp::UpdateImage {
                                                    key: image_key,
                                                    desc: image_desc,
                                                    data: image_data,
                                                },
                                            ),
                                        );
                                        out.push(Action::Backend(BackendOp::BufferUnmap { buffer_id }));
                                        proof {
                                            assert(views_of(self.wgpu_image_map@) =~= step_state(
                                                pre,
                                                greq,
                                                ginput,
                                            ).images);
                                            assert(self@ =~= step_state(pre, greq, ginput));
                                            assert(out@ =~= step_actions(pre, greq, ginput));
                                        }
                                    },
                                    Err(_) => {
                                        out.push(Action::Backend(BackendOp::BufferUnmap { buffer_id }));
                                        proof {
                                            assert(out@ =~= step_actions(pre, greq, ginput));
                                        }
                                    },
                                }
                            },
                            _ => {
                                proof {
                                    assert(false);
                                }
                            },
                        }
                    },
                }
            },
            WebGPURequest::UnmapBuffer { device_id, buffer_id, array_buffer } => {
                out.push(
                    Action::Backend(
                        BackendOp::SetBufferSubData { device_id, buffer_id, data: array_buffer },
                    ),
                );
                proof {
                    assert(out@ =~= step_actions(pre, greq, ginput));
                }
            },
        }
        out
    }

    /// Handles a batch of requests one at a time, in arrival order. The
    /// effect trace is exactly [`batch_actions`]: the concatenation of the
    /// per-request effect sequences, so the backend calls of distinct
    /// requests never interleave.
    pub fn run_batch(&mut self, batch: Vec<(WebGPURequest, BackendInput)>) -> (out: Vec<Action>)
        requires
            old(self).wf(),
            batch_wf(batch@),
        ensures
            final(self).wf(),
            final(self)@ == batch_state(old(self)@, batch@),
            out@ == batch_actions(old(self)@, batch@),
    {
        let ghost pre0 = self@;
        let ghost full = batch@;
        let mut batch = batch;
        let mut out: Vec<Action> = Vec::new();
        while batch.len() > 0
            invariant
                self.wf(),
                batch_wf(batch@),
                batch_state(pre0, full) == batch_state(self@, batch@),
                batch_actions(pre0, full) == out@ + batch_actions(self@, batch@),
            decreases batch@.len(),
        {
            let ghost bpre = batch@;
            let ghost vpre = self@;
            let pair = batch.remove(0);
            let req = pair.0;
            let input = pair.1;
            let ghost greq = req;
            let ghost ginput = input;
            let mut acts = self.handle_request(req, input);
            proof {
                assert(batch@ =~= bpre.drop_first());
                assert(batch_state(vpre, bpre) == batch_state(self@, batch@));
                assert(batch_actions(vpre, bpre) == step_actions(vpre, greq, ginput)
                    + batch_actions(self@, batch@));
                assert((out@ + step_actions(vpre, greq, ginput)) + batch_actions(self@, batch@)
                    =~= out@ + (step_actions(vpre, greq, ginput) + batch_actions(self@, batch@)));
            }
            out.append(&mut acts);
        }
        proof {
            assert(out@ =~= out@ + batch_actions(self@, batch@));
        }
        out
    }
}

} // verus!
