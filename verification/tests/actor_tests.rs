use webgpu_actor::actions::{Action, BackendOp, CompositorOp, Reply};
use webgpu_actor::actor::WGPU;
use webgpu_actor::ids::{
    WebGPUAdapter, WebGPUBuffer, WebGPUCommandEncoder, WebGPUDevice, WebGPUQueue, WebGPUTexture,
};
use webgpu_actor::present::{ImageData, ImageDescriptor};
use webgpu_actor::request::{
    AdapterInfo, BackendInput, PowerPreference, RequestAdapterOptions, WebGPU, WebGPUError,
    WebGPURequest, WebGPUResponse,
};

fn new_actor() -> WGPU {
    WGPU::new(WebGPU(7))
}

fn create_swapchain(actor: &mut WGPU, external_id: u64, width: i32, height: i32, key: u64) -> Vec<Action> {
    actor.handle_request(
        WebGPURequest::CreateSwapChain {
            device_id: WebGPUDevice(1),
            buffer_id: WebGPUBuffer(2),
            external_id,
            image_desc: ImageDescriptor { width, height },
            image_data: ImageData(5),
        },
        BackendInput::GeneratedImageKey(key),
    )
}

fn present(actor: &mut WGPU, external_id: u64, key: u64, bytes: Vec<u8>) -> Vec<Action> {
    actor.handle_request(
        WebGPURequest::SwapChainPresent {
            external_id,
            texture_id: WebGPUTexture(30),
            encoder_id: WebGPUCommandEncoder(31),
            image_key: key,
        },
        BackendInput::MappedBytes(Ok(bytes)),
    )
}

fn count_updates(actions: &[Action]) -> usize {
    actions
        .iter()
        .filter(|a| matches!(a, Action::Compositor(CompositorOp::UpdateImage { .. })))
        .count()
}

#[test]
fn create_swapchain_registers_entry_and_buffer() {
    let mut actor = new_actor();
    let actions = create_swapchain(&mut actor, 9, 2, 2, 11);
    // width 2: row bytes 8, stride rounds up to 256; 2 rows make 512 bytes.
    assert_eq!(actions.len(), 3);
    assert!(matches!(
        actions[0],
        Action::Backend(BackendOp::CreateBuffer { device_id: WebGPUDevice(1), buffer_id: WebGPUBuffer(2), ref descriptor })
            if descriptor.size == 512 && descriptor.usage == 9 && !descriptor.mapped_at_creation
    ));
    assert!(matches!(actions[1], Action::Reply(Reply::ImageKey(11))));
    assert!(matches!(
        actions[2],
        Action::Compositor(CompositorOp::AddImage { key: 11, desc: ImageDescriptor { width: 2, height: 2 }, data: ImageData(5) })
    ));
    let entry = actor.wgpu_image_map.get(&9).expect("entry registered");
    assert_eq!(entry.buffer_stride, 256);
    assert_eq!(entry.data, vec![255u8; 512]);
    assert_eq!(entry.queue_id, WebGPUQueue(1));
}

#[test]
fn present_copies_maps_and_updates_once() {
    let mut actor = new_actor();
    create_swapchain(&mut actor, 9, 2, 2, 11);
    let bytes: Vec<u8> = (0..512).map(|i| (i % 251) as u8).collect();
    let actions = present(&mut actor, 9, 11, bytes.clone());
    assert_eq!(actions.len(), 9);
    assert!(matches!(
        actions[0],
        Action::Backend(BackendOp::CreateCommandEncoder { device_id: WebGPUDevice(1), command_encoder_id: WebGPUCommandEncoder(31) })
    ));
    assert!(matches!(
        actions[1],
        Action::Backend(BackendOp::CopyTextureToBuffer { stride: 256, width: 2, height: 2, .. })
    ));
    assert!(matches!(actions[4], Action::Backend(BackendOp::BufferMapAsync { size: 512, .. })));
    assert!(matches!(actions[5], Action::Backend(BackendOp::DevicePoll { .. })));
    assert!(matches!(actions[8], Action::Backend(BackendOp::BufferUnmap { .. })));
    assert_eq!(count_updates(&actions), 1);
    assert_eq!(actor.wgpu_image_map.get(&9).unwrap().data, bytes);
}

#[test]
fn present_whose_map_fails_keeps_old_bytes_and_sends_no_update() {
    let mut actor = new_actor();
    create_swapchain(&mut actor, 9, 2, 2, 11);
    let actions = actor.handle_request(
        WebGPURequest::SwapChainPresent {
            external_id: 9,
            texture_id: WebGPUTexture(30),
            encoder_id: WebGPUCommandEncoder(31),
            image_key: 11,
        },
        BackendInput::MappedBytes(Err("map failed".to_string())),
    );
    // The copy work is still submitted and the buffer unmapped, but nothing
    // is read back and the compositor hears nothing.
    assert_eq!(actions.len(), 7);
    assert!(matches!(actions[6], Action::Backend(BackendOp::BufferUnmap { .. })));
    assert_eq!(count_updates(&actions), 0);
    assert_eq!(actor.wgpu_image_map.get(&9).unwrap().data, vec![255u8; 512]);
}

#[test]
fn present_unknown_id_is_silent_noop() {
    let mut actor = new_actor();
    let actions = present(&mut actor, 42, 11, vec![1, 2, 3]);
    assert!(actions.is_empty());
    assert!(actor.running);
}

#[test]
fn destroy_removes_entry_and_later_present_does_nothing() {
    let mut actor = new_actor();
    create_swapchain(&mut actor, 9, 2, 2, 11);
    let actions = actor.handle_request(
        WebGPURequest::DestroySwapChain { external_id: 9, image_key: 11 },
        BackendInput::NoInput,
    );
    assert_eq!(actions.len(), 2);
    assert!(matches!(actions[0], Action::Backend(BackendOp::DestroyBuffer(WebGPUBuffer(2)))));
    assert!(matches!(actions[1], Action::Compositor(CompositorOp::DeleteImage { key: 11 })));
    assert!(!actor.wgpu_image_map.contains_key(&9));

    let after = present(&mut actor, 9, 11, vec![0u8; 512]);
    assert!(after.is_empty());
    assert_eq!(count_updates(&after), 0);
    assert!(actor.running);
}

#[test]
fn destroy_unknown_id_is_noop() {
    let mut actor = new_actor();
    let actions = actor.handle_request(
        WebGPURequest::DestroySwapChain { external_id: 77, image_key: 3 },
        BackendInput::NoInput,
    );
    assert!(actions.is_empty());
    assert!(actor.running);
}

#[test]
fn zero_sized_swapchain_is_accepted() {
    let mut actor = new_actor();
    let actions = create_swapchain(&mut actor, 9, 0, 0, 11);
    assert!(matches!(
        actions[0],
        Action::Backend(BackendOp::CreateBuffer { ref descriptor, .. }) if descriptor.size == 0
    ));
    assert_eq!(actor.wgpu_image_map.get(&9).unwrap().data.len(), 0);
    let presented = present(&mut actor, 9, 11, Vec::new());
    assert_eq!(presented.len(), 9);
    assert_eq!(count_updates(&presented), 1);
}

#[test]
fn create_same_id_twice_replaces_entry() {
    let mut actor = new_actor();
    create_swapchain(&mut actor, 9, 2, 2, 11);
    create_swapchain(&mut actor, 9, 4, 1, 12);
    assert_eq!(actor.wgpu_image_map.len(), 1);
    let entry = actor.wgpu_image_map.get(&9).unwrap();
    assert_eq!(entry.width, 4);
    assert_eq!(entry.height, 1);
    assert_eq!(entry.data.len(), 256);
}

#[test]
fn adapter_request_without_match_yields_one_error_and_no_bookkeeping() {
    let mut actor = new_actor();
    let actions = actor.handle_request(
        WebGPURequest::RequestAdapter {
            options: RequestAdapterOptions { power_preference: PowerPreference::HighPerformance },
            ids: vec![WebGPUAdapter(1)],
        },
        BackendInput::AdapterPick(None),
    );
    assert_eq!(actions.len(), 1);
    assert!(matches!(
        actions[0],
        Action::Reply(Reply::Response(Err(WebGPUError::AdapterNotFound)))
    ));
    assert!(actor.adapters.is_empty());
    assert!(actor.running);
}

#[test]
fn adapter_request_with_match_yields_name_and_channel() {
    let mut actor = new_actor();
    let actions = actor.handle_request(
        WebGPURequest::RequestAdapter {
            options: RequestAdapterOptions { power_preference: PowerPreference::Default },
            ids: vec![WebGPUAdapter(3)],
        },
        BackendInput::AdapterPick(Some(AdapterInfo {
            adapter_id: WebGPUAdapter(3),
            name: "Test Adapter".to_string(),
        })),
    );
    assert_eq!(actions.len(), 1);
    match &actions[0] {
        Action::Reply(Reply::Response(Ok(WebGPUResponse::RequestAdapter {
            adapter_name,
            adapter_id,
            channel,
        }))) => {
            assert!(!adapter_name.is_empty());
            assert_eq!(adapter_name, "Test Adapter");
            assert_eq!(*adapter_id, WebGPUAdapter(3));
            // The reply's channel is bound to this same actor.
            assert_eq!(*channel, WebGPU(7));
        }
        other => panic!("unexpected reply: {:?}", action_kind(other)),
    }
    assert_eq!(actor.adapters, vec![WebGPUAdapter(3)]);
}

fn action_kind(a: &Action) -> &'static str {
    match a {
        Action::Backend(_) => "backend",
        Action::Compositor(_) => "compositor",
        Action::Reply(_) => "reply",
        Action::NotifyShutdown => "shutdown",
    }
}

#[test]
fn device_request_propagates_backend_error() {
    let mut actor = new_actor();
    let actions = actor.handle_request(
        WebGPURequest::RequestDevice {
            adapter_id: WebGPUAdapter(3),
            descriptor: webgpu_actor::request::DeviceDescriptor {
                anisotropic_filtering: false,
                max_bind_groups: 4,
            },
            device_id: WebGPUDevice(8),
        },
        BackendInput::DeviceResult(Err("device lost".to_string())),
    );
    assert_eq!(actions.len(), 1);
    match &actions[0] {
        Action::Reply(Reply::Response(Err(WebGPUError::Backend(message)))) => {
            assert_eq!(message, "device lost");
        }
        other => panic!("unexpected reply: {:?}", action_kind(other)),
    }
    assert!(actor.devices.is_empty());
}

#[test]
fn device_request_success_grants_device_and_queue() {
    let mut actor = new_actor();
    let actions = actor.handle_request(
        WebGPURequest::RequestDevice {
            adapter_id: WebGPUAdapter(3),
            descriptor: webgpu_actor::request::DeviceDescriptor {
                anisotropic_filtering: true,
                max_bind_groups: 4,
            },
            device_id: WebGPUDevice(8),
        },
        BackendInput::DeviceResult(Ok(())),
    );
    assert_eq!(actions.len(), 1);
    match &actions[0] {
        Action::Reply(Reply::Response(Ok(WebGPUResponse::RequestDevice {
            device_id,
            queue_id,
            descriptor,
        }))) => {
            assert_eq!(*device_id, WebGPUDevice(8));
            assert_eq!(*queue_id, WebGPUQueue(8));
            assert!(descriptor.anisotropic_filtering);
        }
        other => panic!("unexpected reply: {:?}", action_kind(other)),
    }
    assert_eq!(actor.devices, vec![WebGPUDevice(8)]);
}

#[test]
fn exit_notifies_upstream_then_acknowledges_even_after_failures() {
    let mut actor = new_actor();
    // An earlier failed operation must not change the termination protocol.
    actor.handle_request(
        WebGPURequest::RequestAdapter {
            options: RequestAdapterOptions { power_preference: PowerPreference::LowPower },
            ids: Vec::new(),
        },
        BackendInput::AdapterPick(None),
    );
    let actions = actor.handle_request(WebGPURequest::Exit, BackendInput::NoInput);
    assert_eq!(actions.len(), 3);
    assert!(matches!(actions[0], Action::NotifyShutdown));
    assert!(matches!(actions[1], Action::Backend(BackendOp::FreeGlobal)));
    assert!(matches!(actions[2], Action::Reply(Reply::Ack)));
    let acks = actions.iter().filter(|a| matches!(a, Action::Reply(Reply::Ack))).count();
    let shutdowns = actions.iter().filter(|a| matches!(a, Action::NotifyShutdown)).count();
    assert_eq!(acks, 1);
    assert_eq!(shutdowns, 1);
    assert!(!actor.running);

    // Nothing further is processed after termination.
    let after = actor.handle_request(
        WebGPURequest::DestroyBuffer(WebGPUBuffer(2)),
        BackendInput::NoInput,
    );
    assert!(after.is_empty());
}

#[test]
fn create_context_replies_with_minted_id() {
    let mut actor = new_actor();
    let actions = actor.handle_request(
        WebGPURequest::CreateContext,
        BackendInput::GeneratedExternalId(99),
    );
    assert_eq!(actions.len(), 1);
    assert!(matches!(actions[0], Action::Reply(Reply::ExternalId(99))));
}

#[test]
fn fire_and_forget_requests_emit_one_backend_call_and_no_reply() {
    let mut actor = new_actor();
    let actions = actor.handle_request(
        WebGPURequest::Submit {
            queue_id: WebGPUQueue(8),
            command_buffers: vec![webgpu_actor::ids::WebGPUCommandBuffer(31)],
        },
        BackendInput::NoInput,
    );
    assert_eq!(actions.len(), 1);
    assert!(matches!(
        actions[0],
        Action::Backend(BackendOp::Submit { queue_id: WebGPUQueue(8), ref command_buffers })
            if command_buffers.len() == 1
    ));
    let actions = actor.handle_request(
        WebGPURequest::RunComputePass {
            command_encoder_id: WebGPUCommandEncoder(31),
            pass_data: vec![1, 2, 3],
        },
        BackendInput::NoInput,
    );
    assert_eq!(actions.len(), 1);
    assert!(matches!(
        actions[0],
        Action::Backend(BackendOp::RunComputePass { ref pass_data, .. }) if pass_data == &vec![1u8, 2, 3]
    ));
    let actions = actor.handle_request(
        WebGPURequest::UnmapBuffer {
            device_id: WebGPUDevice(1),
            buffer_id: WebGPUBuffer(2),
            array_buffer: vec![9, 9],
        },
        BackendInput::NoInput,
    );
    assert_eq!(
        actions,
        vec![Action::Backend(BackendOp::SetBufferSubData {
            device_id: WebGPUDevice(1),
            buffer_id: WebGPUBuffer(2),
            data: vec![9, 9],
        })],
    );
}

#[test]
fn batch_trace_is_concatenation_of_per_request_blocks() {
    // Run the same requests one by one and as a batch: the batch trace is
    // exactly the concatenation of the per-request traces, in arrival order.
    let make_batch = || {
        vec![
            (
                WebGPURequest::CreateSwapChain {
                    device_id: WebGPUDevice(1),
                    buffer_id: WebGPUBuffer(2),
                    external_id: 9,
                    image_desc: ImageDescriptor { width: 2, height: 2 },
                    image_data: ImageData(5),
                },
                BackendInput::GeneratedImageKey(11),
            ),
            (
                WebGPURequest::SwapChainPresent {
                    external_id: 9,
                    texture_id: WebGPUTexture(30),
                    encoder_id: WebGPUCommandEncoder(31),
                    image_key: 11,
                },
                BackendInput::MappedBytes(Ok(vec![7u8; 512])),
            ),
            (WebGPURequest::Exit, BackendInput::NoInput),
        ]
    };

    let mut batched = new_actor();
    let trace = batched.run_batch(make_batch());

    let mut serial = new_actor();
    let mut expected: Vec<Action> = Vec::new();
    for (req, input) in make_batch() {
        expected.extend(serial.handle_request(req, input));
    }

    assert_eq!(trace.len(), 3 + 9 + 3);
    assert_eq!(trace, expected);
    assert!(!batched.running);
}
