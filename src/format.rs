//! Sample encodings and the geometry of the buffers handed to the data callback.
use vstd::prelude::*;

verus! {

/// The encoding of one sample, fixed when the stream is opened.
#[derive(Clone, Copy, Debug, PartialEq, Eq, Structural)]
pub enum SampleFormat {
    I16,
    U16,
    F32,
}

impl SampleFormat {
    /// Bytes taken by one sample.
    pub open spec fn size_of(self) -> nat {
        match self {
            SampleFormat::I16 => 2,
            SampleFormat::U16 => 2,
            SampleFormat::F32 => 4,
        }
    }

    pub fn sample_size(&self) -> (r: usize)
        ensures
            r == self.size_of(),
    {
        match self {
            SampleFormat::I16 => 2,
            SampleFormat::U16 => 2,
            SampleFormat::F32 => 4,
        }
    }
}

/// Samples in a view over `frames` frames of `bytes_per_frame` bytes each.
pub open spec fn view_len(frames: nat, bytes_per_frame: nat, format: SampleFormat) -> nat {
    frames * bytes_per_frame / format.size_of()
}

/// The number of samples of the given encoding in a device buffer of `frames` frames.
pub fn buffer_len(frames: u32, bytes_per_frame: u16, format: SampleFormat) -> (r: u64)
    ensures
        r == view_len(frames as nat, bytes_per_frame as nat, format),
{
    let f = frames as u64;
    let b = bytes_per_frame as u64;
    assert(f * b <= 0xffff_ffff_u64 * 0xffff_u64) by (nonlinear_arith)
        requires
            f <= 0xffff_ffff_u64,
            b <= 0xffff_u64,
    ;
    let bytes: u64 = f * b;
    let size = format.sample_size() as u64;
    bytes / size
}

/// Frames free for writing in a render buffer of `max_frames` frames of which
/// `padding` are still queued. A padding beyond the buffer leaves no room.
pub open spec fn free_frames(max_frames: nat, padding: nat) -> nat {
    if padding <= max_frames { (max_frames - padding) as nat } else { 0 }
}

pub fn available_frames(max_frames: u32, padding: u32) -> (r: u32)
    ensures
        r == free_frames(max_frames as nat, padding as nat),
{
    if padding <= max_frames { max_frames - padding } else { 0 }
}

} // verus!
