use webgpu_actor::actions::{Action, CompositorOp};
use webgpu_actor::actor::WGPU;
use webgpu_actor::ids::{WebGPUBuffer, WebGPUCommandEncoder, WebGPUDevice, WebGPUTexture};
use webgpu_actor::images::WGPUExternalImages;
use webgpu_actor::present::{buffer_stride_for_width, ImageData, ImageDescriptor};
use webgpu_actor::request::{BackendInput, WebGPU, WebGPURequest};

fn actor_with_swapchain(external_id: u64, width: i32, height: i32) -> WGPU {
    let mut actor = WGPU::new(WebGPU(1));
    actor.handle_request(
        WebGPURequest::CreateSwapChain {
            device_id: WebGPUDevice(1),
            buffer_id: WebGPUBuffer(2),
            external_id,
            image_desc: ImageDescriptor { width, height },
            image_data: ImageData(5),
        },
        BackendInput::GeneratedImageKey(11),
    );
    actor
}

#[test]
fn lock_of_unknown_id_yields_empty_zero_dimension_image() {
    let actor = WGPU::new(WebGPU(1));
    let mut provider = WGPUExternalImages::new();
    let (bytes, width, height) = provider.lock(&actor.wgpu_image_map, 1234);
    assert!(bytes.is_empty());
    assert_eq!(width, 0);
    assert_eq!(height, 0);
    // The empty placeholder is still staged until unlocked.
    assert!(provider.locked_ids.contains_key(&1234));
    provider.unlock(1234);
    assert!(!provider.locked_ids.contains_key(&1234));
}

#[test]
fn lock_returns_placeholder_bytes_before_any_present() {
    let actor = actor_with_swapchain(9, 2, 2);
    let mut provider = WGPUExternalImages::new();
    let (bytes, width, height) = provider.lock(&actor.wgpu_image_map, 9);
    assert_eq!(width, 2);
    assert_eq!(height, 2);
    assert_eq!(bytes, vec![255u8; 512]);
}

#[test]
fn presented_bytes_round_trip_through_lock() {
    let mut actor = actor_with_swapchain(9, 2, 2);
    let written: Vec<u8> = (0..512).map(|i| (i % 253) as u8).collect();
    let actions = actor.handle_request(
        WebGPURequest::SwapChainPresent {
            external_id: 9,
            texture_id: WebGPUTexture(30),
            encoder_id: WebGPUCommandEncoder(31),
            image_key: 11,
        },
        BackendInput::MappedBytes(Ok(written.clone())),
    );
    assert_eq!(
        actions
            .iter()
            .filter(|a| matches!(a, Action::Compositor(CompositorOp::UpdateImage { .. })))
            .count(),
        1,
    );

    let mut provider = WGPUExternalImages::new();
    let (bytes, width, height) = provider.lock(&actor.wgpu_image_map, 9);
    assert_eq!(bytes, written);
    assert_eq!((width, height), (2, 2));

    // Requests that do not touch this swapchain leave the bytes as they are.
    actor.handle_request(
        WebGPURequest::DestroyBuffer(WebGPUBuffer(77)),
        BackendInput::NoInput,
    );
    let (bytes_again, _, _) = provider.lock(&actor.wgpu_image_map, 9);
    assert_eq!(bytes_again, written);

    // The next present replaces them.
    let rewritten = vec![1u8; 512];
    actor.handle_request(
        WebGPURequest::SwapChainPresent {
            external_id: 9,
            texture_id: WebGPUTexture(30),
            encoder_id: WebGPUCommandEncoder(32),
            image_key: 11,
        },
        BackendInput::MappedBytes(Ok(rewritten.clone())),
    );
    let (bytes_after, _, _) = provider.lock(&actor.wgpu_image_map, 9);
    assert_eq!(bytes_after, rewritten);
}

#[test]
fn locked_copy_is_independent_of_later_table_mutation() {
    let mut actor = actor_with_swapchain(9, 2, 2);
    let mut provider = WGPUExternalImages::new();
    let (bytes, _, _) = provider.lock(&actor.wgpu_image_map, 9);
    actor.handle_request(
        WebGPURequest::DestroySwapChain { external_id: 9, image_key: 11 },
        BackendInput::NoInput,
    );
    // The lock's copy is unchanged even though the entry is gone.
    assert_eq!(bytes, vec![255u8; 512]);
    assert_eq!(provider.locked_ids.get(&9).unwrap(), &vec![255u8; 512]);
}

#[test]
fn stride_rounds_row_bytes_up_to_copy_alignment() {
    // 100 pixels: 400 row bytes fall to the next multiple of 256 above, 512.
    assert_eq!(buffer_stride_for_width(100), 512);
    // An exact multiple still moves strictly above: 64 pixels are 256 bytes.
    assert_eq!(buffer_stride_for_width(64), 512);
    assert_eq!(buffer_stride_for_width(0), 256);
    assert_eq!(buffer_stride_for_width(1), 256);
    assert_eq!(buffer_stride_for_width(63), 256);
}
