//! What a publish call reports back to the producer.

use bytes::Bytes;
use tokio::sync::broadcast::Sender;
use vstd::prelude::*;

use crate::channel::send_frame;
use crate::frame::frame_from_payload;

verus! {

/// The result of pushing one frame to a stream. None of these is a failure:
/// a producer is never penalised for a lack of consumers.
#[derive(Clone, Copy, Debug, PartialEq, Eq, Structural)]
pub enum PublishOutcome {
    /// The frame reached the channel while this many cursors were attached.
    Delivered(usize),
    /// The channel exists but no cursor is attached.
    NoReceivers,
    /// No channel exists for the identifier.
    NoChannel,
}

/// The outcome that a channel's answer to one send stands for: a positive
/// count is a delivery; a count of zero and a returned frame both mean that
/// nobody is listening.
pub open spec fn outcome_of_send(sent: Result<usize, Bytes>) -> PublishOutcome {
    match sent {
        Ok(n) => if n > 0 {
            PublishOutcome::Delivered(n)
        } else {
            PublishOutcome::NoReceivers
        },
        Err(_) => PublishOutcome::NoReceivers,
    }
}

/// Turns a channel's answer to one send into the outcome for the producer.
pub fn classify_send(sent: &Result<usize, Bytes>) -> (outcome: PublishOutcome)
    ensures
        outcome == outcome_of_send(*sent),
        !(outcome is NoChannel),
{
    match sent {
        Ok(n) => {
            if *n > 0 {
                PublishOutcome::Delivered(*n)
            } else {
                PublishOutcome::NoReceivers
            }
        },
        Err(_) => PublishOutcome::NoReceivers,
    }
}

/// Publishes one payload as a frame on a channel, through a handle that the
/// caller holds, so that no registry is involved. The channel answers at
/// once, whatever the speed of its consumers: the outcome is a delivery to
/// at least one cursor, or the report that none is attached.
pub fn publish_on(tx: &Sender<Bytes>, payload: Vec<u8>) -> (outcome: PublishOutcome)
    ensures
        !(outcome is NoChannel),
        outcome matches PublishOutcome::Delivered(n) ==> n >= 1,
{
    let sent = send_frame(tx, frame_from_payload(payload));
    classify_send(&sent)
}

} // verus!
