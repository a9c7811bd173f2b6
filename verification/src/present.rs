//! Swapchain presentation state.
//!
//! Each swapchain that is visible to the compositor is keyed by an opaque
//! numeric external image id and owns one [`PresentationData`] record: the
//! staging buffer that GPU output is copied into, the row stride of that
//! buffer, the image dimensions, and the bytes most recently read back.

use vstd::prelude::*;
use vstd::arithmetic::div_mod::{
    lemma_fundamental_div_mod, lemma_mod_self_0, lemma_mod_bound, lemma_mod_multiples_vanish,
};

use crate::ids::{WebGPUBuffer, WebGPUDevice, WebGPUQueue};

verus! {

/// Alignment, in bytes, that the backend requires of the row stride used by
/// texture-to-buffer copies.
pub const COPY_BYTES_PER_ROW_ALIGNMENT: u32 = 256;

/// Byte count of one pixel row of the given width, rounded up to the copy
/// alignment.
pub open spec fn aligned_row_bytes(width: int) -> int {
    let row = width * 4;
    if row % (COPY_BYTES_PER_ROW_ALIGNMENT as int) == 0 {
        row
    } else {
        row - (row % (COPY_BYTES_PER_ROW_ALIGNMENT as int)) + (COPY_BYTES_PER_ROW_ALIGNMENT as int)
    }
}

/// Row stride chosen for a swapchain of the given pixel width: the row byte
/// count `width * 4` taken to the next multiple of the copy alignment that
/// lies strictly above it.
pub open spec fn stride_of(width: int) -> int {
    let row = width * 4;
    row - (row % (COPY_BYTES_PER_ROW_ALIGNMENT as int)) + (COPY_BYTES_PER_ROW_ALIGNMENT as int)
}

/// The chosen stride is a multiple of the copy alignment, is at least the raw
/// row byte count, and is at least the aligned row byte count.
pub proof fn lemma_stride_aligned(width: int)
    requires
        0 <= width,
    ensures
        stride_of(width) % (COPY_BYTES_PER_ROW_ALIGNMENT as int) == 0,
        stride_of(width) >= width * 4,
        stride_of(width) >= aligned_row_bytes(width),
{
    let a = COPY_BYTES_PER_ROW_ALIGNMENT as int;
    let row = width * 4;
    lemma_fundamental_div_mod(row, a);
    lemma_mod_bound(row, a);
    assert(row - row % a == a * (row / a));
    lemma_mod_self_0(a);
    lemma_mod_multiples_vanish(row / a, a % a, a);
    assert((a * (row / a) + a % a) % a == a % a);
}

/// Computes [`stride_of`] for a non-negative pixel width, in the 32-bit
/// arithmetic the presentation pipeline uses throughout.
pub fn buffer_stride_for_width(width: i32) -> (stride: u32)
    requires
        0 <= width,
        4 * width + COPY_BYTES_PER_ROW_ALIGNMENT <= u32::MAX,
    ensures
        stride == stride_of(width as int),
{
    let row: u32 = (width as u32) * 4;
    proof {
        lemma_mod_bound(row as int, COPY_BYTES_PER_ROW_ALIGNMENT as int);
        assert((row | 255) == row - (row % 256) + 255) by (bit_vector)
            requires
                row <= u32::MAX - 256,
        ;
    }
    (row | (COPY_BYTES_PER_ROW_ALIGNMENT - 1)) + 1
}

/// A byte vector of length `n` holding `value` everywhere: the placeholder
/// contents a staging buffer starts with.
pub fn filled_bytes(value: u8, n: usize) -> (v: Vec<u8>)
    ensures
        v@ == Seq::new(n as nat, |i: int| value),
{
    let mut v: Vec<u8> = Vec::new();
    while v.len() < n
        invariant
            v@.len() <= n,
            forall|i: int| 0 <= i < v@.len() ==> v@[i] == value,
        decreases n - v@.len(),
    {
        v.push(value);
    }
    proof {
        assert(v@ =~= Seq::new(n as nat, |i: int| value));
    }
    v
}

/// Descriptor of a compositor-visible image: its dimensions in pixels.
#[derive(Clone, Copy, Debug, PartialEq, Eq, Structural)]
pub struct ImageDescriptor {
    pub width: i32,
    pub height: i32,
}

/// Handle to the compositor-shared pixel data of an image.
#[derive(Clone, Copy, Debug, PartialEq, Eq, Structural)]
pub struct ImageData(pub u64);

/// Per-swapchain presentation state, created on swapchain creation, its byte
/// contents replaced on every present, removed on swapchain destruction.
pub struct PresentationData {
    /// Device that owns the swapchain's resources.
    pub device_id: WebGPUDevice,
    /// Queue that present submissions go to.
    pub queue_id: WebGPUQueue,
    /// Most recent read-back pixel bytes, `buffer_stride * height` of them.
    pub data: Vec<u8>,
    /// Image width in pixels.
    pub width: i32,
    /// Image height in pixels.
    pub height: i32,
    /// CPU-readable staging buffer that GPU output is copied into.
    pub buffer_id: WebGPUBuffer,
    /// Byte stride of one pixel row in the staging buffer.
    pub buffer_stride: u32,
    /// Compositor image descriptor sent with every image transaction.
    pub image_desc: ImageDescriptor,
    /// Compositor image data handle sent with every image transaction.
    pub image_data: ImageData,
}

/// Mathematical view of a [`PresentationData`] record.
#[verifier::ext_equal]
pub ghost struct PresentationView {
    pub device_id: WebGPUDevice,
    pub queue_id: WebGPUQueue,
    pub data: Seq<u8>,
    pub width: i32,
    pub height: i32,
    pub buffer_id: WebGPUBuffer,
    pub buffer_stride: u32,
    pub image_desc: ImageDescriptor,
    pub image_data: ImageData,
}

impl View for PresentationData {
    type V = PresentationView;

    open spec fn view(&self) -> PresentationView {
        PresentationView {
            device_id: self.device_id,
            queue_id: self.queue_id,
            data: self.data@,
            width: self.width,
            height: self.height,
            buffer_id: self.buffer_id,
            buffer_stride: self.buffer_stride,
            image_desc: self.image_desc,
            image_data: self.image_data,
        }
    }
}

} // verus!
