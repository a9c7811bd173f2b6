//! The laws the actor obeys, stated and proved over its transition function.
//!
//! Each proof function here is a public statement about [`step_state`] and
//! [`step_actions`]: what a whole scenario of requests must do, for every
//! state and every input the law speaks of.

use vstd::prelude::*;
use vstd::arithmetic::mul::{lemma_mul_inequality, lemma_mul_nonnegative};

use crate::actions::{
    count_matching, count_replies, count_shutdowns, count_update_images, is_reply, is_shutdown,
    is_update_image, lemma_count_concat, Action, BackendOp, Reply,
};
use crate::actor::{
    batch_actions, present_buffer_size, request_blocks, req_wf, step_actions, step_state,
    swapchain_buffer_size, swapchain_entry, ActorView,
};
use crate::ids::{WebGPUBuffer, WebGPUCommandEncoder, WebGPUDevice, WebGPUTexture};
use crate::present::{
    aligned_row_bytes, lemma_stride_aligned, stride_of, ImageData, ImageDescriptor,
    COPY_BYTES_PER_ROW_ALIGNMENT,
};
use crate::request::{
    input_matches, needs_reply, AdapterInfo, BackendInput, RequestAdapterOptions, WebGPUError,
    WebGPURequest, WebGPUResponse,
};

verus! {

/// Count over a one-action sequence.
pub proof fn lemma_count1(a: Action, p: spec_fn(Action) -> bool)
    ensures
        count_matching(seq![a], p) == if p(a) {
            1nat
        } else {
            0nat
        },
{
    assert(seq![a].drop_last() =~= Seq::<Action>::empty());
    assert(seq![a].last() == a);
    assert(count_matching(Seq::<Action>::empty(), p) == 0);
}

/// Count over a two-action sequence.
pub proof fn lemma_count2(a: Action, b: Action, p: spec_fn(Action) -> bool)
    ensures
        count_matching(seq![a, b], p) == (if p(a) {
            1nat
        } else {
            0nat
        }) + (if p(b) {
            1nat
        } else {
            0nat
        }),
{
    assert(seq![a, b].drop_last() =~= seq![a]);
    assert(seq![a, b].last() == b);
    lemma_count1(a, p);
}

/// Count over a three-action sequence.
pub proof fn lemma_count3(a: Action, b: Action, c: Action, p: spec_fn(Action) -> bool)
    ensures
        count_matching(seq![a, b, c], p) == (if p(a) {
            1nat
        } else {
            0nat
        }) + (if p(b) {
            1nat
        } else {
            0nat
        }) + (if p(c) {
            1nat
        } else {
            0nat
        }),
{
    assert(seq![a, b, c].drop_last() =~= seq![a, b]);
    assert(seq![a, b, c].last() == c);
    lemma_count2(a, b, p);
}

/// Count over a six-action sequence.
pub proof fn lemma_count6(
    a: Action,
    b: Action,
    c: Action,
    d: Action,
    e: Action,
    f: Action,
    p: spec_fn(Action) -> bool,
)
    ensures
        count_matching(seq![a, b, c, d, e, f], p) == (if p(a) {
            1nat
        } else {
            0nat
        }) + (if p(b) {
            1nat
        } else {
            0nat
        }) + (if p(c) {
            1nat
        } else {
            0nat
        }) + (if p(d) {
            1nat
        } else {
            0nat
        }) + (if p(e) {
            1nat
        } else {
            0nat
        }) + (if p(f) {
            1nat
        } else {
            0nat
        }),
{
    assert(seq![a, b, c, d, e, f] =~= seq![a, b, c] + seq![d, e, f]);
    lemma_count3(a, b, c, p);
    lemma_count3(d, e, f, p);
    lemma_count_concat(seq![a, b, c], seq![d, e, f], p);
}

/// The trace of a batch is the concatenation of the per-request effect
/// blocks, in arrival order: since the actor is the sole owner of the
/// backend, the backend calls it makes are totally ordered, and no two
/// requests' calls ever interleave.
pub proof fn lemma_trace_is_concat_of_request_blocks(
    pre: ActorView,
    s: Seq<(WebGPURequest, BackendInput)>,
)
    ensures
        batch_actions(pre, s) == request_blocks(pre, s).flatten(),
    decreases s.len(),
{
    if s.len() == 0 {
        assert(request_blocks(pre, s).flatten() =~= Seq::<Action>::empty());
    } else {
        let head = step_actions(pre, s[0].0, s[0].1);
        let mid = step_state(pre, s[0].0, s[0].1);
        let blocks = request_blocks(pre, s);
        lemma_trace_is_concat_of_request_blocks(mid, s.drop_first());
        assert(blocks.first() == head);
        assert(blocks.drop_first() =~= request_blocks(mid, s.drop_first()));
        assert(blocks.flatten() == head + request_blocks(mid, s.drop_first()).flatten());
    }
}

/// Every reply-bearing request is answered exactly once, success or error;
/// no other request is ever answered.
pub proof fn lemma_reply_exactly_once(pre: ActorView, req: WebGPURequest, input: BackendInput)
    requires
        pre.running,
        input_matches(req, input),
    ensures
        count_replies(step_actions(pre, req, input)) == if needs_reply(req) {
            1nat
        } else {
            0nat
        },
{
    let acts = step_actions(pre, req, input);
    let p = |a: Action| is_reply(a);
    match req {
        WebGPURequest::CreateContext => {
            match input {
                BackendInput::GeneratedExternalId(_) => {
                    lemma_count1(acts[0], p);
                },
                _ => {},
            }
        },
        WebGPURequest::CreateSwapChain { .. } => {
            match input {
                BackendInput::GeneratedImageKey(_) => {
                    lemma_count3(acts[0], acts[1], acts[2], p);
                },
                _ => {},
            }
        },
        WebGPURequest::DestroySwapChain { external_id, .. } => {
            if pre.images.contains_key(external_id) {
                lemma_count2(acts[0], acts[1], p);
            } else {
                assert(count_matching(Seq::<Action>::empty(), p) == 0);
            }
        },
        WebGPURequest::Exit => {
            lemma_count3(acts[0], acts[1], acts[2], p);
        },
        WebGPURequest::RequestAdapter { .. } => {
            match input {
                BackendInput::AdapterPick(_) => {
                    lemma_count1(acts[0], p);
                },
                _ => {},
            }
        },
        WebGPURequest::RequestDevice { .. } => {
            match input {
                BackendInput::DeviceResult(_) => {
                    lemma_count1(acts[0], p);
                },
                _ => {},
            }
        },
        WebGPURequest::SwapChainPresent { external_id, texture_id, encoder_id, .. } => {
            match input {
                BackendInput::MappedBytes(r) => {
                    if pre.images.contains_key(external_id) {
                        let pd = pre.images[external_id];
                        let prefix = crate::actor::present_prefix(pd, texture_id, encoder_id);
                        lemma_count6(prefix[0], prefix[1], prefix[2], prefix[3], prefix[4], prefix[5], p);
                        assert(prefix =~= seq![prefix[0], prefix[1], prefix[2], prefix[3], prefix[4], prefix[5]]);
                        match r {
                            Ok(_) => {
                                let suffix = seq![acts[6], acts[7], acts[8]];
                                assert(acts =~= prefix + suffix);
                                lemma_count3(acts[6], acts[7], acts[8], p);
                                lemma_count_concat(prefix, suffix, p);
                            },
                            Err(_) => {
                                let suffix = seq![acts[6]];
                                assert(acts =~= prefix + suffix);
                                lemma_count1(acts[6], p);
                                lemma_count_concat(prefix, suffix, p);
                            },
                        }
                    } else {
                        assert(count_matching(Seq::<Action>::empty(), p) == 0);
                    }
                },
                _ => {},
            }
        },
        _ => {
            lemma_count1(acts[0], p);
        },
    }
}

/// Creating a swapchain and then presenting it: the staging buffer created
/// and mapped holds `stride(W) * H` bytes, at least the aligned row bytes
/// times the height, and the present emits exactly one compositor
/// update-image transaction.
pub proof fn lemma_create_then_present(
    pre: ActorView,
    device_id: WebGPUDevice,
    buffer_id: WebGPUBuffer,
    external_id: u64,
    image_desc: ImageDescriptor,
    image_data: ImageData,
    texture_id: WebGPUTexture,
    encoder_id: WebGPUCommandEncoder,
    image_key: u64,
    bytes: Vec<u8>,
)
    requires
        pre.running,
        req_wf(
            WebGPURequest::CreateSwapChain {
                device_id,
                buffer_id,
                external_id,
                image_desc,
                image_data,
            },
        ),
    ensures
        ({
            let created = step_state(
                pre,
                WebGPURequest::CreateSwapChain {
                    device_id,
                    buffer_id,
                    external_id,
                    image_desc,
                    image_data,
                },
                BackendInput::GeneratedImageKey(image_key),
            );
            let present_acts = step_actions(
                created,
                WebGPURequest::SwapChainPresent { external_id, texture_id, encoder_id, image_key },
                BackendInput::MappedBytes(Ok(bytes)),
            );
            let stride = stride_of(image_desc.width as int);
            &&& created.images.contains_key(external_id)
            &&& created.images[external_id].data.len() == stride * image_desc.height
            &&& created.images[external_id].data.len() >= aligned_row_bytes(image_desc.width as int)
                * image_desc.height
            &&& stride % (COPY_BYTES_PER_ROW_ALIGNMENT as int) == 0
            &&& stride >= image_desc.width * 4
            &&& present_buffer_size(created.images[external_id]) == stride * image_desc.height
            &&& count_update_images(present_acts) == 1
        }),
{
    let created = step_state(
        pre,
        WebGPURequest::CreateSwapChain { device_id, buffer_id, external_id, image_desc, image_data },
        BackendInput::GeneratedImageKey(image_key),
    );
    let entry = swapchain_entry(device_id, buffer_id, image_desc, image_data);
    let stride = stride_of(image_desc.width as int);
    lemma_stride_aligned(image_desc.width as int);
    lemma_mul_inequality(
        aligned_row_bytes(image_desc.width as int),
        stride,
        image_desc.height as int,
    );
    lemma_mul_nonnegative(stride, image_desc.height as int);
    assert(0 <= (image_desc.width as int * 4) % (COPY_BYTES_PER_ROW_ALIGNMENT as int) < 256) by {
        vstd::arithmetic::div_mod::lemma_mod_bound(
            image_desc.width as int * 4,
            COPY_BYTES_PER_ROW_ALIGNMENT as int,
        );
    };
    assert(0 <= stride <= u32::MAX);
    assert(entry.buffer_stride as int == stride);
    assert(image_desc.height as int * stride == stride * image_desc.height) by (nonlinear_arith);
    assert(present_buffer_size(entry) == stride * image_desc.height);
    assert(created.images[external_id] == entry);
    let present_acts = step_actions(
        created,
        WebGPURequest::SwapChainPresent { external_id, texture_id, encoder_id, image_key },
        BackendInput::MappedBytes(Ok(bytes)),
    );
    let prefix = crate::actor::present_prefix(entry, texture_id, encoder_id);
    let p = |a: Action| is_update_image(a);
    lemma_count6(prefix[0], prefix[1], prefix[2], prefix[3], prefix[4], prefix[5], p);
    assert(prefix =~= seq![prefix[0], prefix[1], prefix[2], prefix[3], prefix[4], prefix[5]]);
    let suffix = seq![present_acts[6], present_acts[7], present_acts[8]];
    assert(present_acts =~= prefix + suffix);
    lemma_count3(present_acts[6], present_acts[7], present_acts[8], p);
    lemma_count_concat(prefix, suffix, p);
}

/// Destroying a swapchain removes its table entry, and a later present of
/// the same id does nothing: no actions of any kind, no state change, and no
/// failure of the actor.
pub proof fn lemma_destroy_then_present(
    pre: ActorView,
    external_id: u64,
    image_key: u64,
    texture_id: WebGPUTexture,
    encoder_id: WebGPUCommandEncoder,
)
    requires
        pre.running,
    ensures
        ({
            let destroyed = step_state(
                pre,
                WebGPURequest::DestroySwapChain { external_id, image_key },
                BackendInput::NoInput,
            );
            &&& !destroyed.images.contains_key(external_id)
            &&& destroyed.running
            &&& forall|input: BackendInput|
                input is MappedBytes ==> #[trigger] step_actions(
                    destroyed,
                    WebGPURequest::SwapChainPresent {
                        external_id,
                        texture_id,
                        encoder_id,
                        image_key,
                    },
                    input,
                ) == Seq::<Action>::empty() && step_state(
                    destroyed,
                    WebGPURequest::SwapChainPresent {
                        external_id,
                        texture_id,
                        encoder_id,
                        image_key,
                    },
                    input,
                ) == destroyed
        }),
{
}

/// An adapter request is answered exactly once: with an error and no change
/// to the adapter list when nothing matched, and with the adapter's name,
/// its identifier, and a channel bound to this same actor when something
/// did, the pick then appended to the adapter list.
pub proof fn lemma_request_adapter(
    pre: ActorView,
    options: RequestAdapterOptions,
    ids: Vec<crate::ids::WebGPUAdapter>,
    pick: Option<AdapterInfo>,
)
    requires
        pre.running,
    ensures
        ({
            let req = WebGPURequest::RequestAdapter { options, ids };
            let acts = step_actions(pre, req, BackendInput::AdapterPick(pick));
            let post = step_state(pre, req, BackendInput::AdapterPick(pick));
            &&& count_replies(acts) == 1
            &&& match pick {
                None => acts == seq![
                    Action::Reply(Reply::Response(Err(WebGPUError::AdapterNotFound))),
                ] && post == pre,
                Some(info) => {
                    &&& acts == seq![
                        Action::Reply(
                            Reply::Response(
                                Ok(
                                    WebGPUResponse::RequestAdapter {
                                        adapter_name: info.name,
                                        adapter_id: info.adapter_id,
                                        channel: pre.sender,
                                    },
                                ),
                            ),
                        ),
                    ]
                    &&& post.adapters == pre.adapters.push(info.adapter_id)
                    &&& post.devices == pre.devices
                    &&& post.images == pre.images
                    &&& post.running
                },
            }
        }),
{
    let req = WebGPURequest::RequestAdapter { options, ids };
    let acts = step_actions(pre, req, BackendInput::AdapterPick(pick));
    lemma_count1(acts[0], |a: Action| is_reply(a));
    assert(acts =~= seq![acts[0]]);
}

/// Termination always yields exactly one acknowledgement and exactly one
/// upstream shutdown notification, the notification first, the backend's
/// global state released in between; afterwards the actor processes nothing
/// further.
pub proof fn lemma_exit(pre: ActorView)
    requires
        pre.running,
    ensures
        ({
            let acts = step_actions(pre, WebGPURequest::Exit, BackendInput::NoInput);
            &&& acts =~= seq![
                Action::NotifyShutdown,
                Action::Backend(BackendOp::FreeGlobal),
                Action::Reply(Reply::Ack),
            ]
            &&& count_shutdowns(acts) == 1
            &&& count_replies(acts) == 1
            &&& is_shutdown(acts[0])
            &&& acts[2] == Action::Reply(Reply::Ack)
            &&& !step_state(pre, WebGPURequest::Exit, BackendInput::NoInput).running
        }),
{
    let acts = step_actions(pre, WebGPURequest::Exit, BackendInput::NoInput);
    lemma_count3(acts[0], acts[1], acts[2], |a: Action| is_shutdown(a));
    lemma_count3(acts[0], acts[1], acts[2], |a: Action| is_reply(a));
}

/// A present that maps successfully stores exactly the mapped bytes for its
/// id and leaves every other record untouched.
pub proof fn lemma_present_stores_bytes(
    pre: ActorView,
    external_id: u64,
    texture_id: WebGPUTexture,
    encoder_id: WebGPUCommandEncoder,
    image_key: u64,
    bytes: Vec<u8>,
)
    requires
        pre.running,
        pre.images.contains_key(external_id),
    ensures
        ({
            let post = step_state(
                pre,
                WebGPURequest::SwapChainPresent { external_id, texture_id, encoder_id, image_key },
                BackendInput::MappedBytes(Ok(bytes)),
            );
            &&& post.images.contains_key(external_id)
            &&& post.images[external_id].data == bytes@
            &&& forall|other: u64|
                other != external_id ==> (#[trigger] post.images.contains_key(other)
                    <==> pre.images.contains_key(other)) && (pre.images.contains_key(other)
                    ==> post.images[other] == pre.images[other])
        }),
{
}

/// Whether a request creates, destroys, or presents the swapchain with the
/// given external id.
pub open spec fn touches_swapchain(req: WebGPURequest, id: u64) -> bool {
    match req {
        WebGPURequest::CreateSwapChain { external_id, .. } => external_id == id,
        WebGPURequest::DestroySwapChain { external_id, .. } => external_id == id,
        WebGPURequest::SwapChainPresent { external_id, .. } => external_id == id,
        _ => false,
    }
}

/// The bytes presented for an id stay exactly as they are across any request
/// that neither creates, destroys, nor presents that id: what a lock exposes
/// holds until the next present or destruction.
pub proof fn lemma_presented_bytes_stable(
    pre: ActorView,
    req: WebGPURequest,
    input: BackendInput,
    id: u64,
)
    requires
        !touches_swapchain(req, id),
        pre.images.contains_key(id),
    ensures
        step_state(pre, req, input).images.contains_key(id),
        step_state(pre, req, input).images[id] == pre.images[id],
{
}

} // verus!
