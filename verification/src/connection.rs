//! The decisions of the two persistent connections.
//!
//! A connection task waits on its socket and on its cursor, hands each thing
//! that happened to one of the functions here, and performs the action it
//! gets back. Nothing here waits or writes to a socket.

use bytes::Bytes;
use tokio::sync::broadcast::{Receiver, Sender};
use vstd::prelude::*;

use crate::channel::{cursor_on, send_frame, try_read, Delivery};
use crate::frame::{frame_bytes, frame_from_payload, frame_payload};

verus! {

/// A lag is worth a warning from this many skipped frames on.
pub const LAG_WARN_THRESHOLD: u64 = 10;

/// While nobody listens, every so many accepted frames one notice is due.
pub const IDLE_NOTICE_INTERVAL: u64 = 150;

/// What the peer's side of a connection produced.
#[derive(Debug, PartialEq, Eq)]
pub enum ConnectionEvent {
    /// A binary message.
    Binary(Vec<u8>),
    /// A keepalive ping with its payload.
    Ping(Vec<u8>),
    /// The peer asked to close.
    Close,
    /// A message of any other type (text, pong).
    Other,
    /// The transport reported an error.
    TransportError,
    /// The inbound side ended.
    End,
    /// Writing to the peer failed.
    WriteFailed,
}

/// What a producer connection intends to do with an event.
#[derive(Debug, PartialEq, Eq)]
pub enum IngestPlan {
    /// Publish this frame to the channel.
    Publish(Bytes),
    /// Answer the ping with a pong of the same payload.
    Pong(Vec<u8>),
    /// Do nothing and keep reading.
    Ignore,
    /// End the connection.
    Stop,
}

/// What a producer connection must do after an event.
#[derive(Debug, PartialEq, Eq)]
pub enum IngestReply {
    /// Keep reading.
    Continue,
    /// Answer the ping with a pong of the same payload, then keep reading.
    Pong(Vec<u8>),
    /// End the connection.
    Stop,
}

/// What a producer connection may want to log after an event.
#[derive(Clone, Copy, Debug, PartialEq, Eq, Structural)]
pub enum IngestNotice {
    /// Nothing.
    Quiet,
    /// The frame with this number was accepted while nobody listened.
    Idle(u64),
    /// The frame came back: the channel has no cursor attached.
    NoReceivers,
}

/// The outcome of one event on a producer connection.
#[derive(Debug, PartialEq, Eq)]
pub struct IngestStep {
    /// The number of frames the channel has accepted from this connection.
    pub frames: u64,
    pub reply: IngestReply,
    pub notice: IngestNotice,
}

/// What a consumer connection must do next.
#[derive(Debug, PartialEq, Eq)]
pub enum SubscriberAction {
    /// Send these bytes to the peer as one binary message.
    Forward(Vec<u8>),
    /// Frames were lost to lag; go on without sending anything. `warn` says
    /// whether the loss is large enough to report.
    Skip { skipped: u64, warn: bool },
    /// Answer the ping with a pong of the same payload.
    Pong(Vec<u8>),
    /// Nothing to do; keep waiting.
    Continue,
    /// End the connection and detach the cursor.
    Stop,
}

/// The frame counter after one more accepted frame. It wraps at the top of
/// its range.
pub open spec fn next_frame_number(frames: u64) -> u64 {
    if frames == u64::MAX {
        0
    } else {
        (frames + 1) as u64
    }
}

/// The counter and the notice after the channel answered one send: an
/// accepted frame advances the counter, and is worth a notice if nobody
/// listened and its number is a multiple of the interval; a returned frame
/// leaves the counter alone and is always worth a notice.
pub open spec fn after_send(frames: u64, sent: Result<usize, Bytes>) -> (u64, IngestNotice) {
    match sent {
        Ok(n) => {
            let next = next_frame_number(frames);
            if n == 0 && next % IDLE_NOTICE_INTERVAL == 0 {
                (next, IngestNotice::Idle(next))
            } else {
                (next, IngestNotice::Quiet)
            }
        },
        Err(_) => (frames, IngestNotice::NoReceivers),
    }
}

/// Accounts for the channel's answer to one send on a producer connection.
pub fn ingest_after_send(frames: u64, sent: &Result<usize, Bytes>) -> (r: (u64, IngestNotice))
    ensures
        r == after_send(frames, *sent),
{
    match sent {
        Ok(n) => {
            let next: u64 = if frames == u64::MAX {
                0
            } else {
                frames + 1
            };
            if *n == 0 && next % IDLE_NOTICE_INTERVAL == 0 {
                (next, IngestNotice::Idle(next))
            } else {
                (next, IngestNotice::Quiet)
            }
        },
        Err(_) => (frames, IngestNotice::NoReceivers),
    }
}

/// Decides what a producer connection does with one event, before anything
/// is sent: a binary message becomes one frame to publish, byte for byte; a
/// ping is answered with its own payload; a close, an error, the end of
/// input or a failed write stops the connection; anything else is ignored.
pub fn ingest_plan(event: ConnectionEvent) -> (plan: IngestPlan)
    ensures
        match event {
            ConnectionEvent::Binary(payload) => plan matches IngestPlan::Publish(frame)
                && frame_bytes(frame) == payload@,
            ConnectionEvent::Ping(data) => plan == IngestPlan::Pong(data),
            ConnectionEvent::Other => plan is Ignore,
            _ => plan is Stop,
        },
{
    match event {
        ConnectionEvent::Binary(payload) => IngestPlan::Publish(frame_from_payload(payload)),
        ConnectionEvent::Ping(data) => IngestPlan::Pong(data),
        ConnectionEvent::Other => IngestPlan::Ignore,
        _ => IngestPlan::Stop,
    }
}

/// Handles one event of a producer connection: makes the plan, and where it
/// is to publish, sends the frame to the channel at once. Whether the
/// channel took it depends on the cursors attached at that moment, so the
/// contract states both cases; with a cursor attached the count is at least
/// one, so no idle notice comes from a live channel.
pub fn ingest_step(tx: &Sender<Bytes>, frames: u64, event: ConnectionEvent) -> (step: IngestStep)
    ensures
        match event {
            ConnectionEvent::Binary(_) => {
                &&& step.reply is Continue
                &&& {
                    ||| step.notice is Quiet && step.frames == next_frame_number(frames)
                    ||| step.notice is NoReceivers && step.frames == frames
                }
            },
            ConnectionEvent::Ping(data) => {
                &&& step.reply == IngestReply::Pong(data)
                &&& step.notice is Quiet
                &&& step.frames == frames
            },
            ConnectionEvent::Other => {
                &&& step.reply is Continue
                &&& step.notice is Quiet
                &&& step.frames == frames
            },
            _ => {
                &&& step.reply is Stop
                &&& step.notice is Quiet
                &&& step.frames == frames
            },
        },
{
    match ingest_plan(event) {
        IngestPlan::Publish(frame) => {
            let sent = send_frame(tx, frame);
            let (next, notice) = ingest_after_send(frames, &sent);
            IngestStep { frames: next, reply: IngestReply::Continue, notice }
        },
        IngestPlan::Pong(data) => IngestStep {
            frames,
            reply: IngestReply::Pong(data),
            notice: IngestNotice::Quiet,
        },
        IngestPlan::Ignore => IngestStep {
            frames,
            reply: IngestReply::Continue,
            notice: IngestNotice::Quiet,
        },
        IngestPlan::Stop => IngestStep {
            frames,
            reply: IngestReply::Stop,
            notice: IngestNotice::Quiet,
        },
    }
}

/// Whether `action` is what a consumer connection does with `got`: a frame
/// is forwarded byte for byte, a lag is skipped over (with a warning from
/// the threshold on), a closed channel stops the connection, and an empty
/// read changes nothing.
pub open spec fn answers_delivery(got: Delivery, action: SubscriberAction) -> bool {
    match got {
        Delivery::Frame(frame) => action matches SubscriberAction::Forward(data) && data@
            == frame_bytes(frame),
        Delivery::Lagged(skipped) => action == (SubscriberAction::Skip {
            skipped,
            warn: skipped >= LAG_WARN_THRESHOLD,
        }),
        Delivery::Closed => action is Stop,
        Delivery::Empty => action is Continue,
    }
}

/// Decides what a consumer connection does with one outcome of its cursor.
pub fn on_delivery(got: Delivery) -> (action: SubscriberAction)
    ensures
        answers_delivery(got, action),
{
    match got {
        Delivery::Frame(frame) => SubscriberAction::Forward(frame_payload(&frame)),
        Delivery::Lagged(skipped) => SubscriberAction::Skip {
            skipped,
            warn: skipped >= LAG_WARN_THRESHOLD,
        },
        Delivery::Closed => SubscriberAction::Stop,
        Delivery::Empty => SubscriberAction::Continue,
    }
}

/// Decides what a consumer connection does with one event from its peer:
/// a ping is answered; a close, an error, the end of input or a failed write
/// stops the connection; inbound data of any kind is ignored.
pub fn on_peer_event(event: ConnectionEvent) -> (action: SubscriberAction)
    ensures
        match event {
            ConnectionEvent::Ping(data) => action == SubscriberAction::Pong(data),
            ConnectionEvent::Binary(_) | ConnectionEvent::Other => action is Continue,
            _ => action is Stop,
        },
{
    match event {
        ConnectionEvent::Ping(data) => SubscriberAction::Pong(data),
        ConnectionEvent::Binary(_) => SubscriberAction::Continue,
        ConnectionEvent::Other => SubscriberAction::Continue,
        _ => SubscriberAction::Stop,
    }
}

/// Reads the cursor once without waiting and decides what to do with what
/// came. Which outcome comes depends on what was published since the cursor
/// last read; the action answers that outcome, whichever it was, and is never
/// a pong. The cursor stays on its channel.
pub fn poll_subscriber(rx: &mut Receiver<Bytes>) -> (action: SubscriberAction)
    ensures
        exists|got: Delivery| answers_delivery(got, action),
        !(action is Pong),
        forall|tx: Sender<Bytes>| cursor_on(*old(rx), tx) == #[trigger] cursor_on(*final(rx), tx),
{
    let got = try_read(rx);
    let action = on_delivery(got);
    assert(answers_delivery(got, action));
    action
}

} // verus!
