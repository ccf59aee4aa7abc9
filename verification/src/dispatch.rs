//! Dispatch decisions: what the loops around the core do with each
//! tick and each inbound message.
//!
//! The dispatcher either generates curves on a timer or relays curves
//! reconstructed from upstream payloads; both paths end in a broadcast
//! through a channel.  The loops themselves suspend on timers and
//! sockets and so run outside the core; every decision they take —
//! how to pace a cycle, what to do with an inbound frame, whether a
//! decoded payload is acceptable, what bytes to broadcast — is made
//! here.

use vstd::prelude::*;
use crate::channel::broadcast_post;
use crate::errors::Error;
use crate::registry::{channel_present, updated_at, ChannelRegistry};
use crate::samples::{valid_input, validate_samples, CurvatureSample};

verus! {

/// An inbound frame of an upstream producer's connection, reduced to
/// plain data.
pub enum WsEvent {
    /// The peer closed the connection.
    Close,
    /// A ping probe with its payload.
    Ping(Vec<u8>),
    /// A pong with its payload.
    Pong(Vec<u8>),
    /// A textual message body.
    Text(Vec<u8>),
    /// A binary message body.
    Binary(Vec<u8>),
}

/// What the connection loop must do with one inbound frame.
pub enum WsAction {
    /// Stop reading and tear the subscription down.
    Stop,
    /// Report the ping payload; the connection stays open.
    LogPing(Vec<u8>),
    /// Report the unexpected pong payload; the connection stays open.
    LogPong(Vec<u8>),
    /// Decode the payload and relay the reconstructed curve.
    Relay(Vec<u8>),
}

/// Decides what an upstream producer's connection loop does with one
/// inbound frame: a close stops the loop, probes are only reported,
/// and both text and binary bodies are relayed as payloads.
pub fn upstream_action(event: WsEvent) -> (a: WsAction)
    ensures
        a == (match event {
            WsEvent::Close => WsAction::Stop,
            WsEvent::Ping(data) => WsAction::LogPing(data),
            WsEvent::Pong(data) => WsAction::LogPong(data),
            WsEvent::Text(data) => WsAction::Relay(data),
            WsEvent::Binary(data) => WsAction::Relay(data),
        }),
{
    match event {
        WsEvent::Close => WsAction::Stop,
        WsEvent::Ping(data) => WsAction::LogPing(data),
        WsEvent::Pong(data) => WsAction::LogPong(data),
        WsEvent::Text(data) => WsAction::Relay(data),
        WsEvent::Binary(data) => WsAction::Relay(data),
    }
}

/// What a downstream subscriber's connection loop does with one
/// inbound frame.
pub enum DownstreamAction {
    /// Stop reading; the subscriber is then deregistered.
    Stop,
    /// Report the ping payload; the subscription stays.
    LogPing(Vec<u8>),
    /// Report the unexpected pong payload; the subscription stays.
    LogPong(Vec<u8>),
    /// Report the unexpected message body; the subscription stays.
    LogMessage(Vec<u8>),
}

/// Decides what a downstream subscriber's connection loop does with
/// one inbound frame: a close ends the subscription, and everything
/// else — subscribers have nothing to say — is only reported.
pub fn downstream_action(event: WsEvent) -> (a: DownstreamAction)
    ensures
        a == (match event {
            WsEvent::Close => DownstreamAction::Stop,
            WsEvent::Ping(data) => DownstreamAction::LogPing(data),
            WsEvent::Pong(data) => DownstreamAction::LogPong(data),
            WsEvent::Text(data) => DownstreamAction::LogMessage(data),
            WsEvent::Binary(data) => DownstreamAction::LogMessage(data),
        }),
{
    match event {
        WsEvent::Close => DownstreamAction::Stop,
        WsEvent::Ping(data) => DownstreamAction::LogPing(data),
        WsEvent::Pong(data) => DownstreamAction::LogPong(data),
        WsEvent::Text(data) => DownstreamAction::LogMessage(data),
        WsEvent::Binary(data) => DownstreamAction::LogMessage(data),
    }
}

/// Accepts or rejects one decoded upstream payload: a payload the
/// decoder could not parse is a `DecodeError`; a parsed sample set
/// that is no acceptable reconstruction input is an `InvalidInput`;
/// an acceptable one is handed on unchanged.  Either error drops only
/// this payload — the connection stays open.
pub fn accept_payload(decoded: Option<Vec<CurvatureSample>>, ds: u64) -> (r: Result<
    Vec<CurvatureSample>,
    Error,
>)
    ensures
        decoded is None ==> r == Err::<Vec<CurvatureSample>, Error>(Error::DecodeError),
        decoded matches Some(samples) ==> ({
            &&& valid_input(samples@, ds) ==> (r matches Ok(out) && out@ == samples@)
            &&& !valid_input(samples@, ds) ==> r == Err::<Vec<CurvatureSample>, Error>(
                Error::InvalidInput,
            )
        }),
{
    match decoded {
        None => Err(Error::DecodeError),
        Some(samples) => {
            match validate_samples(&samples, ds) {
                Ok(()) => Ok(samples),
                Err(e) => Err(e),
            }
        },
    }
}

/// How long a timer-driven cycle that took `cost_ms` of its
/// `period_ms` budget still has to sleep: the remainder, or nothing
/// when the work already exceeded the period, in which case the next
/// cycle starts immediately.
pub fn remaining_sleep(cost_ms: u64, period_ms: u64) -> (r: u64)
    ensures
        r == if cost_ms >= period_ms {
            0
        } else {
            period_ms - cost_ms
        },
{
    if cost_ms >= period_ms {
        0
    } else {
        period_ms - cost_ms
    }
}

/// What libflate's DEFLATE encoder produces for a byte payload: a
/// function of the input bytes alone.
pub uninterp spec fn deflate_of(data: Seq<u8>) -> Seq<u8>;

/// Relies on libflate's `deflate::Encoder`: writing the whole payload
/// into a fresh encoder over an in-memory buffer and finishing it
/// yields the DEFLATE stream for exactly those bytes, a deterministic
/// function of them; writes into a `Vec` cannot fail.
#[verifier::external_body]
fn deflate_raw(data: &Vec<u8>) -> (r: Vec<u8>)
    ensures
        r@ == deflate_of(data@),
{
    let mut encoder = libflate::deflate::Encoder::new(Vec::new());
    std::io::Write::write_all(&mut encoder, data.as_slice()).unwrap();
    encoder.finish().into_result().unwrap()
}

/// Compresses an outbound payload with DEFLATE.
pub fn compress_payload(data: &Vec<u8>) -> (r: Vec<u8>)
    ensures
        r@ == deflate_of(data@),
{
    deflate_raw(data)
}

/// The tail of one dispatch cycle: broadcasts a serialized curve —
/// DEFLATE-compressed first when `compress` holds — on the channel
/// under `id`, evicting the subscribers whose send failed and
/// yielding their indices; `NotFound` for an unknown id.
pub fn publish(registry: &mut ChannelRegistry, id: usize, payload: &Vec<u8>, compress: bool) -> (r:
    Result<Vec<usize>, Error>)
    ensures
        r is Ok <==> channel_present(old(registry)@, id as int),
        r is Err ==> final(registry)@ == old(registry)@ && r == Err::<Vec<usize>, Error>(
            Error::NotFound,
        ),
        r matches Ok(evicted) ==> ({
            &&& updated_at(old(registry)@, final(registry)@, id as int)
            &&& channel_present(final(registry)@, id as int)
            &&& broadcast_post(
                old(registry)@[id as int]->0@,
                final(registry)@[id as int]->0@,
                evicted@,
            )
        }),
{
    if compress {
        let body = compress_payload(payload);
        registry.broadcast(id, &body)
    } else {
        registry.broadcast(id, payload)
    }
}

} // verus!
