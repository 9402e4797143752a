//! The handler-based guard: a console-control callback hands the event
//! code to the waiting thread through a zero-capacity handshake slot, and
//! is held until the user handler has finished.
//!
//! The platform glue (registering the callback with the console-control
//! subsystem) lives outside this library; the rendezvous itself, which is
//! the part with ordering hazards, lives here. Two messages flow per
//! event: the event code, from the callback context to the waiter, and an
//! acknowledgement back, sent only after the user handler has returned,
//! so the callback must not report the event as handled - and the host
//! must not tear the process down - before cleanup is complete.

use vstd::prelude::*;
use std::sync::mpsc::{Receiver, SyncSender};

verus! {

#[verifier::external_type_specification]
#[verifier::external_body]
#[verifier::reject_recursive_types(T)]
pub struct ExSyncSender<T>(SyncSender<T>);

#[verifier::external_type_specification]
#[verifier::external_body]
#[verifier::reject_recursive_types(T)]
pub struct ExReceiver<T>(Receiver<T>);

/// The identity of the channel a sending half belongs to.
pub uninterp spec fn sender_channel(tx: SyncSender<u32>) -> int;

/// The identity of the channel a receiving half belongs to.
pub uninterp spec fn receiver_channel(rx: Receiver<u32>) -> int;

/// Relies on std::sync::mpsc::sync_channel: returns the two halves of one
/// connected channel whose buffer holds `bound` messages; with a bound of
/// zero every send blocks until a matching receive.
#[verifier::external_body]
fn sync_channel_u32(bound: usize) -> (r: (SyncSender<u32>, Receiver<u32>))
    ensures
        sender_channel(r.0) == receiver_channel(r.1),
{
    std::sync::mpsc::sync_channel(bound)
}

/// Relies on std::sync::mpsc::SyncSender::send: blocks until the receiver
/// takes the value (the channel here has no buffer); returns whether it
/// was taken - false when the receiving end is gone. What arrives at the
/// receiver depends on the other thread, so nothing more is stated.
#[verifier::external_body]
fn chan_send(tx: &SyncSender<u32>, v: u32) -> (ok: bool) {
    tx.send(v).is_ok()
}

/// Relies on std::sync::mpsc::Receiver::recv: blocks until a value
/// arrives, and returns None when the sending end is gone. Which value
/// arrives depends on the other thread, so nothing more is stated.
#[verifier::external_body]
fn chan_recv(rx: &Receiver<u32>) -> (r: Option<u32>) {
    rx.recv().ok()
}

/// The waiting half of the handshake slot. The thread that calls
/// [`SignalGuard::at_exit`] owns it; ownership is what keeps the
/// receiving end exclusive to one logical waiter.
pub struct SignalGuard {
    events: Receiver<u32>,
    acks: SyncSender<u32>,
}

/// The delivery half of the handshake slot: it belongs with the
/// console-control callback. [`Delivery::deliver`] is the callback's
/// whole job - send the event code over, then stay blocked until the
/// waiter acknowledges that the user handler has finished.
pub struct Delivery {
    events: SyncSender<u32>,
    acks: Receiver<u32>,
}

/// Why a wait-and-handle cycle on the handler-based guard failed.
pub enum HandshakeError<F> {
    /// The delivery half is gone; the handler was never invoked and is
    /// handed back untouched.
    Disconnected(F),
    /// The handler ran, for the event code carried here, but the
    /// acknowledgement could not be sent: the delivery half is gone.
    AckLost(usize),
}

impl SignalGuard {
    /// The identity of the channel this guard receives event codes on.
    pub closed spec fn event_channel(self) -> int {
        receiver_channel(self.events)
    }

    /// The identity of the channel this guard sends acknowledgements on.
    pub closed spec fn ack_channel(self) -> int {
        sender_channel(self.acks)
    }

    /// Create the guard and the delivery half it pairs with. The two
    /// halves share one handshake slot built from zero-capacity channels,
    /// so every message is a rendezvous: it is not stored, it is handed
    /// from one thread to the other. The guard's event half and the
    /// delivery's belong to one channel, and likewise the two
    /// acknowledgement halves.
    ///
    /// One pair per process is the intended shape: the delivery half goes
    /// to the process-wide console-control callback, the guard stays with
    /// the thread that will wait.
    pub fn new() -> (r: (SignalGuard, Delivery))
        ensures
            r.0.event_channel() == r.1.event_channel(),
            r.0.ack_channel() == r.1.ack_channel(),
    {
        let (etx, erx) = sync_channel_u32(0);
        let (atx, arx) = sync_channel_u32(0);
        (SignalGuard { events: erx, acks: atx }, Delivery { events: etx, acks: arx })
    }

    /// Block the running thread until the callback delivers an event
    /// code; then `handler` is called exactly once, on this thread, with
    /// that code, and only after it has returned is the acknowledgement
    /// sent, releasing the callback. Returns the code the handler was
    /// given.
    ///
    /// A guard supports exactly one wait-and-handle cycle, so this call
    /// consumes the guard: a second cycle is unsupported and ownership
    /// rules it out. Do not put any code after this that must run: once
    /// the callback is released the host may terminate the process.
    pub fn at_exit<F: FnOnce(usize)>(self, handler: F) -> (r: Result<usize, HandshakeError<F>>)
        requires
            forall|c: usize| c <= u32::MAX ==> call_requires(handler, (c,)),
        ensures
            r matches Ok(c) ==> c <= u32::MAX && call_ensures(handler, (c,), ()),
            r matches Err(HandshakeError::Disconnected(h)) ==> h == handler,
            r matches Err(HandshakeError::AckLost(c)) ==> c <= u32::MAX && call_ensures(
                handler,
                (c,),
                (),
            ),
    {
        match chan_recv(&self.events) {
            None => Err(HandshakeError::Disconnected(handler)),
            Some(code) => {
                let c = code as usize;
                handler(c);
                if chan_send(&self.acks, 0) {
                    Ok(c)
                } else {
                    Err(HandshakeError::AckLost(c))
                }
            }
        }
    }
}

impl Delivery {
    /// The identity of the channel this half sends event codes on.
    pub closed spec fn event_channel(self) -> int {
        sender_channel(self.events)
    }

    /// The identity of the channel this half receives acknowledgements on.
    pub closed spec fn ack_channel(self) -> int {
        receiver_channel(self.acks)
    }

    /// Hand one event code to the waiting thread, then block until the
    /// waiter acknowledges that the user handler has finished. Returns
    /// whether the full two-step handshake completed; false means the
    /// waiting half is gone and the event was never, or only partly,
    /// processed.
    pub fn deliver(&self, code: u32) -> (done: bool) {
        if chan_send(&self.events, code) {
            match chan_recv(&self.acks) {
                Some(_) => true,
                None => false,
            }
        } else {
            false
        }
    }
}

} // verus!
