//! Dispatching one normalized image through the native engine: sizing
//! the output buffer before the call, and concluding the call afterwards
//! — surfacing the native status and releasing the engine-owned output
//! buffer exactly once on every path.
//!
//! The blocking native call itself is made by the embedding shim; this
//! module decides everything around it.

use vstd::prelude::*;
use crate::marshal::{
    MarshalError, bpp_of, data_of, height_of, image_height, image_width, reconstruct,
    reconstruct_accepts, spec_normalized_channels, width_of,
};

verus! {

/// The engine ABI carries dimensions and byte counts in signed 32-bit
/// fields; nothing larger can cross the boundary.
pub const ABI_DIM_LIMIT: u32 = 0x7fffffff;

/// Why a processing call could not run or did not produce an image.
#[derive(Debug, Copy, Clone, PartialEq, Eq, Structural)]
pub enum DispatchError {
    /// The scaled dimensions or output byte count exceed the engine
    /// ABI's signed 32-bit fields.
    DimensionOverflow,
    /// The native engine reported this nonzero failure status.
    NativeFailure(i32),
    /// The engine returned a buffer that does not describe a typed image.
    Shape(MarshalError),
}

proof fn lemma_mul_bound(a: int, b: int, a_max: int, b_max: int)
    requires
        0 <= a <= a_max,
        0 <= b <= b_max,
    ensures
        a * b <= a_max * b_max,
{
    assert(a * b <= a_max * b_max) by (nonlinear_arith)
        requires
            0 <= a <= a_max,
            0 <= b <= b_max,
    ;
}

/// Whether an image of these dimensions can legally cross the engine ABI
/// at this upscale factor.
pub open spec fn dispatch_fits(width: u32, height: u32, channels: u8, scale: u32) -> bool {
    &&& width * scale <= ABI_DIM_LIMIT
    &&& height * scale <= ABI_DIM_LIMIT
    &&& (width * scale) * (height * scale) * channels <= ABI_DIM_LIMIT
}

/// Everything the shim needs to invoke the engine for one image: the
/// input shape it hands over and the exact shape of the buffer the
/// engine will return.
#[derive(Debug, Copy, Clone, PartialEq, Eq, Structural)]
pub struct DispatchPlan {
    /// Input width, as handed to the engine.
    pub in_width: u32,
    /// Input height, as handed to the engine.
    pub in_height: u32,
    /// Interleaved 8-bit channel count, unchanged by the engine.
    pub channels: u8,
    /// Output width: input width times the upscale factor (the factor 1
    /// names the engine's pass-through path).
    pub out_width: u32,
    /// Output height: input height times the upscale factor.
    pub out_height: u32,
    /// Exact byte count of the engine's output buffer.
    pub expected_len: usize,
}

/// Sizes the engine invocation for one normalized image.
///
/// The output keeps the channel count and multiplies each spatial
/// dimension by `scale`; with `scale == 1` the engine's pass-through
/// path leaves the dimensions unchanged.  Fails exactly when a scaled
/// dimension or the output byte count would not fit the ABI's signed
/// 32-bit fields.
pub fn prepare_dispatch(img: &image::DynamicImage, channels: u8, scale: u32) -> (r: Result<
    DispatchPlan,
    DispatchError,
>)
    requires
        scale >= 1,
    ensures
        r is Ok <==> dispatch_fits(width_of(*img), height_of(*img), channels, scale),
        r is Err ==> r->Err_0 == DispatchError::DimensionOverflow,
        r is Ok ==> {
            let plan = r->Ok_0;
            &&& plan.in_width == width_of(*img)
            &&& plan.in_height == height_of(*img)
            &&& plan.channels == channels
            &&& plan.out_width == width_of(*img) * scale
            &&& plan.out_height == height_of(*img) * scale
            &&& plan.expected_len == plan.out_width * plan.out_height * channels
        },
{
    let width = image_width(img);
    let height = image_height(img);
    proof {
        lemma_mul_bound(width as int, scale as int, 0xffffffff, 0xffffffff);
        lemma_mul_bound(height as int, scale as int, 0xffffffff, 0xffffffff);
    }
    let out_width_wide: u64 = (width as u64) * (scale as u64);
    let out_height_wide: u64 = (height as u64) * (scale as u64);
    if out_width_wide > (ABI_DIM_LIMIT as u64) || out_height_wide > (ABI_DIM_LIMIT as u64) {
        return Err(DispatchError::DimensionOverflow);
    }
    let out_width: u32 = out_width_wide as u32;
    let out_height: u32 = out_height_wide as u32;
    proof {
        lemma_mul_bound(out_width as int, out_height as int, 0x7fffffff, 0x7fffffff);
    }
    let area: u64 = (out_width as u64) * (out_height as u64);
    proof {
        lemma_mul_bound(area as int, channels as int, (0x7fffffff as int) * (0x7fffffff as int), 0xff);
    }
    let total: u128 = (area as u128) * (channels as u128);
    if total > (ABI_DIM_LIMIT as u128) {
        return Err(DispatchError::DimensionOverflow);
    }
    Ok(
        DispatchPlan {
            in_width: width,
            in_height: height,
            channels,
            out_width,
            out_height,
            expected_len: total as usize,
        },
    )
}

/// Ownership token for the engine-owned output buffer of one processing
/// call.  The shim acquires it together with the buffer and may mark it
/// released exactly once — the contracts admit no second release and no
/// conclusion without one, whatever the native status was.
pub struct BufferLease {
    released: bool,
}

impl BufferLease {
    /// Whether the native buffer behind this lease has been released.
    pub closed spec fn is_released(self) -> bool {
        self.released
    }

    /// Taken when the engine hands its output buffer over; the buffer is
    /// not yet released.
    pub fn acquire() -> (r: BufferLease)
        ensures
            !r.is_released(),
    {
        BufferLease { released: false }
    }

    /// Records the one release of the buffer: a lease can never be marked
    /// released twice.
    pub fn mark_released(&mut self)
        requires
            !old(self).is_released(),
        ensures
            final (self).is_released(),
    {
        self.released = true;
    }

    /// Whether the release has been recorded.
    pub fn released(&self) -> (r: bool)
        ensures
            r == self.is_released(),
    {
        self.released
    }
}

/// Concludes one processing call after the native buffer was copied out
/// and released: a nonzero native status is surfaced as an error, and a
/// zero status yields the typed image rebuilt from the copied bytes.
///
/// Requiring a released lease on every path — success and native
/// failure alike — is what rules out both leaking the engine-owned
/// buffer and releasing it twice.
pub fn conclude_dispatch(
    plan: &DispatchPlan,
    status: i32,
    bytes: Vec<u8>,
    lease: &BufferLease,
) -> (r: Result<image::DynamicImage, DispatchError>)
    requires
        lease.is_released(),
    ensures
        status != 0 ==> r is Err && r->Err_0 == DispatchError::NativeFailure(status),
        status == 0 ==> {
            r is Ok <==> reconstruct_accepts(
                plan.out_width,
                plan.out_height,
                plan.channels,
                bytes@.len(),
            )
        },
        status == 0 && r is Ok ==> {
            let img = r->Ok_0;
            &&& width_of(img) == plan.out_width
            &&& height_of(img) == plan.out_height
            &&& bpp_of(img) == plan.channels
            &&& data_of(img) == bytes@
        },
        status == 0 && r is Err ==> r->Err_0 == DispatchError::Shape(
            if 1 <= plan.channels <= 4 {
                MarshalError::BufferSizeMismatch
            } else {
                MarshalError::UnsupportedChannelCount
            },
        ),
{
    if status != 0 {
        return Err(DispatchError::NativeFailure(status));
    }
    match reconstruct(plan.out_width, plan.out_height, plan.channels, bytes) {
        Ok(img) => Ok(img),
        Err(e) => Err(DispatchError::Shape(e)),
    }
}

/// Law: a dispatch round trip keeps its planned shape.  For any input
/// dimensions the ABI admits and any input whose normalized channel
/// count is one of the four 8-bit layouts, an engine output buffer of
/// the planned size always reconstructs, into an image whose spatial
/// dimensions are the input's multiplied by the upscale factor (or
/// unchanged at factor 1) and whose channel count is the
/// post-normalization channel count.
pub proof fn lemma_round_trip_shape(width: u32, height: u32, bpp: u8, scale: u32)
    requires
        scale >= 1,
        1 <= spec_normalized_channels(bpp) <= 4,
        dispatch_fits(width, height, spec_normalized_channels(bpp), scale),
    ensures
        reconstruct_accepts(
            (width * scale) as u32,
            (height * scale) as u32,
            spec_normalized_channels(bpp),
            (width * scale * (height * scale) * spec_normalized_channels(bpp)) as nat,
        ),
        scale == 1 ==> (width * scale) as u32 == width && (height * scale) as u32 == height,
{
    if scale == 1 {
        assert(width * scale == width && height * scale == height) by (nonlinear_arith)
            requires
                scale == 1,
        ;
    }
}

} // verus!
