//! Planar audio: each channel is contiguous, and channel `n` starts at sample
//! `n * channel_stride` of the buffer.

use vstd::prelude::*;

verus! {

/// Whether a buffer of `len` samples holds `frames` frames of each of
/// `channels` channels laid out `stride` samples apart: the last channel
/// ends inside the buffer.
pub open spec fn planar_fits(len: nat, stride: nat, frames: nat, channels: nat) -> bool {
    channels > 0 ==> (channels - 1) * stride + frames <= len
}

/// Decides `planar_fits` without overflow.
pub fn fits(len: usize, stride: usize, frames: usize, channels: usize) -> (ok: bool)
    ensures
        ok == planar_fits(len as nat, stride as nat, frames as nat, channels as nat),
{
    if channels == 0 {
        return true;
    }
    if frames > len {
        assert((channels - 1) * stride >= 0) by (nonlinear_arith)
            requires
                channels >= 1,
        ;
        return false;
    }
    let room: usize = len - frames;
    match (channels - 1).checked_mul(stride) {
        Some(span) => span <= room,
        None => false,
    }
}

} // verus!
