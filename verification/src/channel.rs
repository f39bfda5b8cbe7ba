//! The event channel: the ordered, unbounded queue that carries canonical
//! events from the native loop's thread to the caller.
//!
//! The queue itself is the standard library's mpsc channel, reached through
//! the trusted declarations below; what this module verifies is the terminal
//! state machine around it: once the sending side is gone the receiver
//! reports `Closed` — "the tray is gone" — on this and every later call,
//! without touching the channel again, so closure is a terminal signal and
//! never a repeating error.

use vstd::prelude::*;
use crate::event::SystrayEvent;

verus! {

/// Declares `std::sync::mpsc::Sender` so it can stand in fields here.
#[verifier::external_type_specification]
#[verifier::external_body]
#[verifier::reject_recursive_types(T)]
pub struct ExSender<T>(std::sync::mpsc::Sender<T>);

/// Declares `std::sync::mpsc::Receiver` so it can stand in fields here.
#[verifier::external_type_specification]
#[verifier::external_body]
#[verifier::reject_recursive_types(T)]
pub struct ExReceiver<T>(std::sync::mpsc::Receiver<T>);

/// Relies on std::sync::mpsc::channel: an ordered, unbounded queue whose
/// receiving end reports disconnection once every sender is dropped.
#[verifier::external_body]
fn channel_raw() -> (r: (std::sync::mpsc::Sender<SystrayEvent>, std::sync::mpsc::Receiver<
    SystrayEvent,
>)) {
    std::sync::mpsc::channel()
}

/// Relies on std::sync::mpsc::Sender::send: delivery fails only when the
/// receiver is gone. Whether it fails depends on the receiving thread, so
/// nothing more is stated of the result.
#[verifier::external_body]
fn send_raw(tx: &std::sync::mpsc::Sender<SystrayEvent>, event: SystrayEvent) -> (delivered:
    bool) {
    tx.send(event).is_ok()
}

/// Relies on std::sync::mpsc::Receiver::recv: blocks until a value arrives
/// and returns `None` only when the queue is empty and every sender is gone.
/// Which of the two happens depends on the sending thread, so nothing more
/// is stated of the result.
#[verifier::external_body]
fn recv_raw(rx: &std::sync::mpsc::Receiver<SystrayEvent>) -> (r: Option<SystrayEvent>) {
    rx.recv().ok()
}

/// Relies on std::sync::mpsc::Receiver::try_recv: never blocks; tells a
/// momentarily empty queue apart from one whose senders are all gone.
#[verifier::external_body]
fn try_recv_raw(rx: &std::sync::mpsc::Receiver<SystrayEvent>) -> (r: TryReceiveRaw) {
    match rx.try_recv() {
        Ok(event) => TryReceiveRaw::Received(event),
        Err(std::sync::mpsc::TryRecvError::Empty) => TryReceiveRaw::Empty,
        Err(std::sync::mpsc::TryRecvError::Disconnected) => TryReceiveRaw::Disconnected,
    }
}

/// What one non-blocking poll of the raw channel yielded.
enum TryReceiveRaw {
    Received(SystrayEvent),
    Empty,
    Disconnected,
}

/// Relies on std::sync::mpsc::Receiver::recv_timeout: blocks for at most the
/// given number of milliseconds; tells expiry apart from a channel whose
/// senders are all gone.
#[verifier::external_body]
fn recv_timeout_raw(rx: &std::sync::mpsc::Receiver<SystrayEvent>, timeout_ms: u64) -> (r:
    TryReceiveRaw) {
    match rx.recv_timeout(std::time::Duration::from_millis(timeout_ms)) {
        Ok(event) => TryReceiveRaw::Received(event),
        Err(std::sync::mpsc::RecvTimeoutError::Timeout) => TryReceiveRaw::Empty,
        Err(std::sync::mpsc::RecvTimeoutError::Disconnected) => TryReceiveRaw::Disconnected,
    }
}

/// What one receive attempt yielded.
#[derive(Clone, Copy, Debug, PartialEq, Eq, Structural)]
pub enum ReceiveOutcome {
    /// The next canonical event, in the order the native loop produced them.
    Event(SystrayEvent),
    /// No event has arrived yet; only a non-blocking poll reports this.
    NoEvent,
    /// The native loop is gone and every queued event has been taken: the
    /// terminal signal. Stop polling.
    Closed,
}

/// The sending half, held by the native loop's thread.
pub struct EventSender {
    tx: std::sync::mpsc::Sender<SystrayEvent>,
}

impl EventSender {
    /// Hands one canonical event to the caller, best-effort: a caller that
    /// has stopped listening makes this report `false`, which the loop may
    /// log but must not treat as fatal.
    pub fn send(&self, event: SystrayEvent) -> (delivered: bool) {
        send_raw(&self.tx, event)
    }
}

/// The receiving half, held by the caller, with the terminal state latched.
pub struct EventReceiver {
    rx: std::sync::mpsc::Receiver<SystrayEvent>,
    closed: bool,
}

impl EventReceiver {
    /// Whether the terminal signal was already observed.
    pub closed spec fn spec_closed(&self) -> bool {
        self.closed
    }

    /// Blocks until the next canonical event arrives, or reports `Closed`
    /// once the native loop is gone. After the first `Closed` every later
    /// call reports `Closed` again, immediately and without touching the
    /// channel.
    pub fn receive_next_event(&mut self) -> (r: ReceiveOutcome)
        ensures
            r !== ReceiveOutcome::NoEvent,
            (r == ReceiveOutcome::Closed) == final(self).spec_closed(),
            old(self).spec_closed() ==> r == ReceiveOutcome::Closed,
    {
        if self.closed {
            return ReceiveOutcome::Closed;
        }
        match recv_raw(&self.rx) {
            Some(event) => ReceiveOutcome::Event(event),
            None => {
                self.closed = true;
                ReceiveOutcome::Closed
            },
        }
    }

    /// Waits at most `timeout_ms` milliseconds for the next event: `NoEvent`
    /// on expiry, `Closed` — latched exactly as for `receive_next_event` —
    /// once the native loop is gone.
    pub fn receive_next_event_timeout(&mut self, timeout_ms: u64) -> (r: ReceiveOutcome)
        ensures
            (r == ReceiveOutcome::Closed) == final(self).spec_closed(),
            old(self).spec_closed() ==> r == ReceiveOutcome::Closed,
    {
        if self.closed {
            return ReceiveOutcome::Closed;
        }
        match recv_timeout_raw(&self.rx, timeout_ms) {
            TryReceiveRaw::Received(event) => ReceiveOutcome::Event(event),
            TryReceiveRaw::Empty => ReceiveOutcome::NoEvent,
            TryReceiveRaw::Disconnected => {
                self.closed = true;
                ReceiveOutcome::Closed
            },
        }
    }

    /// Polls for an event without blocking: `NoEvent` when none has arrived
    /// yet, `Closed` — latched exactly as for `receive_next_event` — once
    /// the native loop is gone.
    pub fn try_receive_next_event(&mut self) -> (r: ReceiveOutcome)
        ensures
            (r == ReceiveOutcome::Closed) == final(self).spec_closed(),
            old(self).spec_closed() ==> r == ReceiveOutcome::Closed,
    {
        if self.closed {
            return ReceiveOutcome::Closed;
        }
        match try_recv_raw(&self.rx) {
            TryReceiveRaw::Received(event) => ReceiveOutcome::Event(event),
            TryReceiveRaw::Empty => ReceiveOutcome::NoEvent,
            TryReceiveRaw::Disconnected => {
                self.closed = true;
                ReceiveOutcome::Closed
            },
        }
    }
}

/// Creates the event channel: the sender goes to the native loop's thread,
/// the receiver stays with the caller and has not yet observed closure.
pub fn event_channel() -> (r: (EventSender, EventReceiver))
    ensures
        !r.1.spec_closed(),
{
    let (tx, rx) = channel_raw();
    (EventSender { tx }, EventReceiver { rx, closed: false })
}

} // verus!
