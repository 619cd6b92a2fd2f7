//! Sample frame model: the unit of captured audio and the checked
//! deserialization of a raw capture read into stereo frames.

use vstd::prelude::*;

verus! {

/// Frames drawn (and captured) per second.
pub const FRAME_RATE: usize = 60;

/// Sample rate the capture source is configured for, in frames per second.
pub const SAMPLE_RATE: usize = 44100;

/// Stereo frames captured per tick: one frame-rate slice of the stream.
pub const BUFFER_LEN: usize = SAMPLE_RATE / FRAME_RATE;

/// Bytes of one stereo frame on the wire: two little-endian 32-bit values,
/// left channel first.
pub const BYTES_PER_FRAME: usize = 8;

/// Fixed-point unit: amplitudes are thousandths of full scale.
pub const MILLI: i32 = 1000;

/// One captured stereo frame, still as the raw bit patterns of the two
/// little-endian 32-bit wire values (left channel first).
#[derive(Clone, Copy, PartialEq, Eq, Structural, Debug)]
pub struct RawFrame {
    pub left_bits: u32,
    pub right_bits: u32,
}

/// One stereo frame in fixed-point form: each amplitude in thousandths of
/// full scale, clamped to `[-MILLI, MILLI]`.
#[derive(Clone, Copy, PartialEq, Eq, Structural, Debug)]
pub struct SampleFrame {
    pub left: i32,
    pub right: i32,
}

/// Both amplitudes of the frame lie within full scale.
pub open spec fn frame_in_range(f: SampleFrame) -> bool {
    &&& -1000 <= f.left <= 1000
    &&& -1000 <= f.right <= 1000
}

/// Every frame of the buffer lies within full scale.
pub open spec fn frames_in_range(s: Seq<SampleFrame>) -> bool {
    forall|i: int| 0 <= i < s.len() ==> frame_in_range(#[trigger] s[i])
}

/// Why a capture read cannot supply a buffer.
#[derive(Clone, Copy, PartialEq, Eq, Structural, Debug)]
pub enum CaptureError {
    /// The source cannot be read (disconnected device, failed read).
    DeviceUnavailable,
    /// The data on hand does not frame as the configured format.
    FormatMismatch,
}

impl CaptureError {
    /// Short description for the fatal report at process exit.
    pub fn describe(&self) -> (r: &'static str)
        ensures
            *self is DeviceUnavailable ==> r@ == "audio device unavailable"@,
            *self is FormatMismatch ==> r@ == "capture data does not match the configured format"@,
    {
        match self {
            CaptureError::DeviceUnavailable => "audio device unavailable",
            CaptureError::FormatMismatch => "capture data does not match the configured format",
        }
    }
}

/// The little-endian 32-bit value whose four bytes start at `i`.
pub open spec fn le32_at(b: Seq<u8>, i: int) -> int
    recommends
        0 <= i,
        i + 4 <= b.len(),
{
    b[i] + 0x100 * b[i + 1] + 0x10000 * b[i + 2] + 0x1000000 * b[i + 3]
}

/// A decode of `bytes` succeeded: one frame per `BYTES_PER_FRAME` group, each
/// channel read as the little-endian 32-bit value of its group half.
pub open spec fn frames_match_bytes(frames: Seq<RawFrame>, bytes: Seq<u8>) -> bool {
    &&& bytes.len() == frames.len() * BYTES_PER_FRAME
    &&& forall|i: int|
        0 <= i < frames.len() ==> (#[trigger] frames[i]).left_bits == le32_at(
            bytes,
            i * BYTES_PER_FRAME,
        ) && frames[i].right_bits == le32_at(bytes, i * BYTES_PER_FRAME + 4)
}

fn read_le32(bytes: &Vec<u8>, offset: usize) -> (r: u32)
    requires
        offset + 4 <= bytes@.len(),
        bytes@.len() <= usize::MAX,
    ensures
        r == le32_at(bytes@, offset as int),
{
    let b0 = bytes[offset] as u32;
    let b1 = bytes[offset + 1] as u32;
    let b2 = bytes[offset + 2] as u32;
    let b3 = bytes[offset + 3] as u32;
    b0 + 0x100 * b1 + 0x10000 * b2 + 0x1000000 * b3
}

/// Checked deserialization of one capture read: `bytes` must hold exactly
/// `frame_count` stereo frames of two little-endian 32-bit values each;
/// anything else is a format mismatch.
pub fn decode_frames(bytes: &Vec<u8>, frame_count: usize) -> (r: Result<
    Vec<RawFrame>,
    CaptureError,
>)
    requires
        frame_count * BYTES_PER_FRAME <= usize::MAX,
    ensures
        r is Ok <==> bytes@.len() == frame_count * BYTES_PER_FRAME,
        r matches Ok(frames) ==> frames@.len() == frame_count && frames_match_bytes(
            frames@,
            bytes@,
        ),
        r matches Err(e) ==> e == CaptureError::FormatMismatch,
{
    if bytes.len() != frame_count * BYTES_PER_FRAME {
        return Err(CaptureError::FormatMismatch);
    }
    let mut frames: Vec<RawFrame> = Vec::new();
    let mut i: usize = 0;
    while i < frame_count
        invariant
            i <= frame_count,
            frame_count * BYTES_PER_FRAME <= usize::MAX,
            bytes@.len() == frame_count * BYTES_PER_FRAME,
            frames@.len() == i,
            forall|j: int|
                0 <= j < i ==> (#[trigger] frames@[j]).left_bits == le32_at(
                    bytes@,
                    j * BYTES_PER_FRAME,
                ) && frames@[j].right_bits == le32_at(bytes@, j * BYTES_PER_FRAME + 4),
        decreases frame_count - i,
    {
        proof {
            assert((i + 1) * BYTES_PER_FRAME <= frame_count * BYTES_PER_FRAME) by (
            nonlinear_arith)
                requires
                    i < frame_count,
            ;
            assert((i + 1) * BYTES_PER_FRAME == i * BYTES_PER_FRAME + BYTES_PER_FRAME) by (
            nonlinear_arith);
        }
        let base = i * BYTES_PER_FRAME;
        let left_bits = read_le32(bytes, base);
        let right_bits = read_le32(bytes, base + 4);
        frames.push(RawFrame { left_bits, right_bits });
        i = i + 1;
    }
    Ok(frames)
}

} // verus!
