//! The distribution channel: a bounded broadcast queue shared by handles.
//!
//! A channel's state lives behind its handles and changes whenever any of
//! them is used, from any task. The contracts here therefore state only what
//! holds of every outcome; what the broker does with an outcome is decided by
//! verified functions that take it as an argument.

use bytes::Bytes;
use tokio::sync::broadcast::error::TryRecvError;
use tokio::sync::broadcast::{Receiver, Sender};
use vstd::prelude::*;

use crate::frame::frame_bytes;

verus! {

/// The publishing handle of a broadcast channel.
#[verifier::external_type_specification]
#[verifier::external_body]
#[verifier::reject_recursive_types(T)]
pub struct ExSender<T>(tokio::sync::broadcast::Sender<T>);

/// A receiver cursor of a broadcast channel.
#[verifier::external_type_specification]
#[verifier::external_body]
#[verifier::reject_recursive_types(T)]
pub struct ExReceiver<T>(tokio::sync::broadcast::Receiver<T>);

/// The largest ring capacity a channel can be made with.
pub const MAX_CAPACITY: usize = usize::MAX / 2;

/// Whether two publishing handles lead to one channel.
pub uninterp spec fn shares_channel(a: Sender<Bytes>, b: Sender<Bytes>) -> bool;

/// Whether a receiver cursor reads from the channel that a publishing handle
/// leads to.
pub uninterp spec fn cursor_on(rx: Receiver<Bytes>, tx: Sender<Bytes>) -> bool;

/// The capacity that the channel behind a handle was made with. The ring
/// holds that many frames, rounded up to a power of two.
pub uninterp spec fn capacity_of(tx: Sender<Bytes>) -> usize;

/// What one non-blocking read of a receiver cursor gave.
#[derive(Debug, PartialEq, Eq)]
pub enum Delivery {
    /// The next frame in publish order.
    Frame(Bytes),
    /// The cursor had fallen out of the retention window; it skipped this
    /// many frames and now stands at the oldest retained one.
    Lagged(u64),
    /// No publisher will ever emit again.
    Closed,
    /// Nothing is pending.
    Empty,
}

/// Calls `broadcast::channel` and keeps the publishing half; the receiver
/// that comes with it is dropped at once, so the channel starts with no
/// cursor attached. The outside function panics on a capacity of zero or
/// above half of `usize::MAX`, which `requires` leaves out. The channel is
/// made with the capacity that was asked for.
#[verifier::external_body]
pub(crate) fn open_channel(capacity: usize) -> (tx: Sender<Bytes>)
    requires
        0 < capacity <= MAX_CAPACITY,
    ensures
        capacity_of(tx) == capacity,
{
    tokio::sync::broadcast::channel(capacity).0
}

/// Calls `Sender::clone`: another handle on the same channel, which is
/// therefore one made with the same capacity.
#[verifier::external_body]
pub(crate) fn clone_handle(tx: &Sender<Bytes>) -> (handle: Sender<Bytes>)
    ensures
        shares_channel(handle, *tx),
        capacity_of(handle) == capacity_of(*tx),
{
    tx.clone()
}

/// Calls `Sender::same_channel`, which compares the shared state that the
/// two handles point to.
#[verifier::external_body]
pub(crate) fn handles_share(a: &Sender<Bytes>, b: &Sender<Bytes>) -> (same: bool)
    ensures
        same == shares_channel(*a, *b),
{
    a.same_channel(b)
}

/// Calls `Sender::send`. With no cursor attached the frame comes back as
/// the error; otherwise the result is the number of cursors attached at that
/// moment, which is then at least one.
#[verifier::external_body]
pub(crate) fn send_frame(tx: &Sender<Bytes>, frame: Bytes) -> (sent: Result<usize, Bytes>)
    ensures
        sent matches Ok(n) ==> n >= 1,
        sent matches Err(back) ==> frame_bytes(back) == frame_bytes(frame),
{
    match tx.send(frame) {
        Ok(n) => Ok(n),
        Err(tokio::sync::broadcast::error::SendError(back)) => Err(back),
    }
}

/// Calls `Sender::subscribe`: a new cursor on the handle's own channel, which
/// will see the frames sent after this call. Nothing is claimed of where in
/// the sequence the cursor stands. The outside function panics once a
/// quarter of `usize::MAX` cursors are attached to the channel, more than a
/// machine can hold.
#[verifier::external_body]
pub(crate) fn attach_cursor(tx: &Sender<Bytes>) -> (rx: Receiver<Bytes>)
    ensures
        cursor_on(rx, *tx),
{
    tx.subscribe()
}

/// Calls `Sender::receiver_count`: the cursors attached at this moment.
/// Nothing is claimed of the number.
#[verifier::external_body]
pub(crate) fn attached_count(tx: &Sender<Bytes>) -> (n: usize) {
    tx.receiver_count()
}

/// Calls `Receiver::try_recv` and maps its four outcomes one for one.
/// Nothing is claimed of which one comes. A read moves the cursor along its
/// channel and never to another one.
#[verifier::external_body]
pub(crate) fn try_read(rx: &mut Receiver<Bytes>) -> (got: Delivery)
    ensures
        forall|tx: Sender<Bytes>| cursor_on(*old(rx), tx) == #[trigger] cursor_on(*final(rx), tx),
{
    match rx.try_recv() {
        Ok(frame) => Delivery::Frame(frame),
        Err(TryRecvError::Lagged(skipped)) => Delivery::Lagged(skipped),
        Err(TryRecvError::Closed) => Delivery::Closed,
        Err(TryRecvError::Empty) => Delivery::Empty,
    }
}

} // verus!
