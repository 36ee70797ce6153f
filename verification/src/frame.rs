//! Frames: opaque, cheaply shared byte buffers.

use bytes::Bytes;
use vstd::prelude::*;

verus! {

/// The shared byte buffer that carries one frame.
#[verifier::external_type_specification]
#[verifier::external_body]
pub struct ExBytes(bytes::Bytes);

/// The bytes that a frame holds, in order.
pub uninterp spec fn frame_bytes(frame: Bytes) -> Seq<u8>;

/// Wraps a payload as one frame. Calls `Bytes::from` on the byte vector: the
/// buffer takes the vector over and holds exactly its bytes.
#[verifier::external_body]
pub(crate) fn frame_from_payload(payload: Vec<u8>) -> (frame: Bytes)
    ensures
        frame_bytes(frame) == payload@,
{
    Bytes::from(payload)
}

/// Copies a frame's bytes out, for a peer that needs them owned. Calls
/// `to_vec` on the buffer (the slice method, reached through deref): a fresh
/// vector with the buffer's bytes.
#[verifier::external_body]
pub(crate) fn frame_payload(frame: &Bytes) -> (payload: Vec<u8>)
    ensures
        payload@ == frame_bytes(*frame),
{
    frame.to_vec()
}

} // verus!
