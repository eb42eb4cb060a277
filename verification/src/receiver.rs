//! The receive loop's decisions: what to do with what the socket gave.
//!
//! One datagram is one payload. A datagram that is text goes to the queue as
//! it is; one that is not text is discarded with a reason, and so is a failed
//! read. Neither stops the loop: every outcome leaves the queue fit for the
//! next datagram.

use std::string::FromUtf8Error;
use vstd::prelude::*;
use vstd::utf8::{decode_utf8, encode_utf8, encode_utf8_decode_utf8, valid_utf8};

use crate::queue::{enqueued, HandoffQueue, Offer};

verus! {

/// The address on which the relay listens: every interface.
pub const LISTEN_HOST: &'static str = "0.0.0.0";

/// The port on which the relay listens.
pub const LISTEN_PORT: u16 = 9090;

/// The size of the buffer that a datagram is read into. What a longer
/// datagram holds beyond it never reaches the relay.
pub const RECEIVE_BUFFER: usize = 1024;

/// The error of `String::from_utf8`, carried through for its text.
#[verifier::external_type_specification]
#[verifier::external_body]
pub struct ExFromUtf8Error(std::string::FromUtf8Error);

/// Trusted: `String::from_utf8` succeeds exactly on valid UTF-8, and the
/// string it then gives has the bytes of the vector.
pub assume_specification[ String::from_utf8 ](bytes: Vec<u8>) -> (text: Result<
    String,
    FromUtf8Error,
>)
    ensures
        text is Ok <==> valid_utf8(bytes@),
        text matches Ok(string) ==> encode_utf8(string@) == bytes@,
;

/// Trusted: the words of `FromUtf8Error`'s `Display`.
#[verifier::external_body]
fn refusal_text(refusal: &FromUtf8Error) -> (text: String) {
    refusal.to_string()
}

/// Whether a datagram is a payload: whether its bytes are text.
pub open spec fn is_payload(datagram: Seq<u8>) -> bool {
    valid_utf8(datagram)
}

/// The payload that a datagram holds.
pub open spec fn payload_of(datagram: Seq<u8>) -> Seq<char> {
    decode_utf8(datagram)
}

/// Reads a datagram as text. Valid UTF-8 gives the text, byte for byte;
/// anything else gives the reason why it is none.
pub fn decode_datagram(datagram: Vec<u8>) -> (payload: Result<String, String>)
    ensures
        payload is Ok <==> is_payload(datagram@),
        payload matches Ok(text) ==> text@ == payload_of(datagram@) && encode_utf8(text@)
            == datagram@,
{
    match String::from_utf8(datagram) {
        Ok(text) => {
            proof {
                encode_utf8_decode_utf8(text@);
            }
            Ok(text)
        },
        Err(refusal) => Err(refusal_text(&refusal)),
    }
}

/// What the socket gave.
#[derive(Debug, PartialEq, Eq)]
pub enum SocketEvent {
    /// A datagram, as many bytes of it as the buffer took.
    Datagram(Vec<u8>),
    /// The read failed, for the reason given.
    ReadFailed(String),
}

/// What was done with what the socket gave.
#[derive(Debug, PartialEq, Eq)]
pub enum Intake {
    /// The datagram's text is in the queue.
    Queued,
    /// The queue is full. The payload comes back: wait for room and hand it
    /// to [`resume`] before reading on.
    Blocked(String),
    /// The queue is closed. The payload is gone.
    Shut,
    /// The datagram was no text, for the reason given. It is gone.
    NotText(String),
    /// The read had failed, for the reason given. Nothing was received.
    ReadFailed(String),
}

/// The queue after the socket gave `datagram`.
pub open spec fn received(queue: Seq<Seq<char>>, capacity: nat, closed: bool, datagram: Seq<u8>) -> Seq<
    Seq<char>,
> {
    if is_payload(datagram) {
        enqueued(queue, capacity, closed, payload_of(datagram))
    } else {
        queue
    }
}

/// Offers a payload to the queue on behalf of the receive loop.
pub fn resume(queue: &mut HandoffQueue, payload: String) -> (intake: Intake)
    ensures
        final(queue).capacity() == old(queue).capacity(),
        final(queue).is_closed() == old(queue).is_closed(),
        final(queue)@ == enqueued(
            old(queue)@,
            old(queue).capacity(),
            old(queue).is_closed(),
            payload@,
        ),
        old(queue).is_closed() ==> intake == Intake::Shut,
        !old(queue).is_closed() && old(queue)@.len() >= old(queue).capacity() ==> intake
            == Intake::Blocked(payload),
        !old(queue).is_closed() && old(queue)@.len() < old(queue).capacity() ==> intake
            == Intake::Queued,
{
    match queue.enqueue(payload) {
        Offer::Queued => Intake::Queued,
        Offer::Full(payload) => Intake::Blocked(payload),
        Offer::Closed(_) => Intake::Shut,
    }
}

/// Takes one event of the socket. A datagram that is text is offered to the
/// queue, unchanged; no other event touches the queue.
pub fn receive(queue: &mut HandoffQueue, event: SocketEvent) -> (intake: Intake)
    ensures
        final(queue).capacity() == old(queue).capacity(),
        final(queue).is_closed() == old(queue).is_closed(),
        match event {
            SocketEvent::Datagram(datagram) => {
                &&& final(queue)@ == received(
                    old(queue)@,
                    old(queue).capacity(),
                    old(queue).is_closed(),
                    datagram@,
                )
                &&& !is_payload(datagram@) ==> intake is NotText
                &&& is_payload(datagram@) && old(queue).is_closed() ==> intake == Intake::Shut
                &&& is_payload(datagram@) && !old(queue).is_closed() && old(queue)@.len() >= old(
                    queue,
                ).capacity() ==> (intake matches Intake::Blocked(payload) && payload@ == payload_of(
                    datagram@,
                ))
                &&& is_payload(datagram@) && !old(queue).is_closed() && old(queue)@.len() < old(
                    queue,
                ).capacity() ==> intake == Intake::Queued
            },
            SocketEvent::ReadFailed(reason) => {
                &&& final(queue)@ == old(queue)@
                &&& intake == Intake::ReadFailed(reason)
            },
        },
{
    match event {
        SocketEvent::Datagram(datagram) => {
            match decode_datagram(datagram) {
                Ok(payload) => resume(queue, payload),
                Err(reason) => Intake::NotText(reason),
            }
        },
        SocketEvent::ReadFailed(reason) => Intake::ReadFailed(reason),
    }
}

} // verus!
