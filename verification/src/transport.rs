use crate::attempt::AttemptObservation;
use crate::contract::HttpVersion;
use crate::invocation::FailureClass;
use crate::time::Duration;
use vstd::prelude::*;

verus! {

/// The FNV-1a offset basis.
pub const FNV_OFFSET: u64 = 0xcbf2_9ce4_8422_2325;
/// The FNV-1a prime.
pub const FNV_PRIME: u64 = 0x0000_0100_0000_01b3;

/// One FNV-1a step: mix in a byte, then multiply by the prime modulo 2^64.
pub open spec fn fnv_step(hash: u64, byte: u8) -> u64 {
    (hash ^ (byte as u64)).wrapping_mul(FNV_PRIME)
}

/// FNV-1a over `bytes`, starting from `hash`.
pub open spec fn fnv(hash: u64, bytes: Seq<u8>) -> u64
    decreases bytes.len(),
{
    if bytes.len() == 0 {
        hash
    } else {
        fnv_step(fnv(hash, bytes.drop_last()), bytes.last())
    }
}

/// The eight little-endian bytes of `value`.
pub open spec fn le_bytes(value: u64) -> Seq<u8> {
    Seq::new(8, |i: int| ((value >> ((8 * i) as u64)) & 0xff) as u8)
}

/// The hash of a request's authority and identifier: FNV-1a over each part preceded
/// by its length as eight little-endian bytes.
pub open spec fn request_hash(authority: Seq<u8>, request_id: Seq<u8>) -> u64 {
    fnv(FNV_OFFSET, le_bytes(authority.len() as u64) + authority + le_bytes(request_id.len() as u64) + request_id)
}

fn hash_bytes(hash: u64, bytes: &[u8]) -> (result: u64)
    ensures
        result == fnv(hash, bytes@),
{
    let mut h = hash;
    let mut i: usize = 0;
    while i < bytes.len()
        invariant
            i <= bytes@.len(),
            h == fnv(hash, bytes@.take(i as int)),
        decreases bytes@.len() - i,
    {
        assert(bytes@.take(i + 1).drop_last() =~= bytes@.take(i as int));
        h = (h ^ (bytes[i] as u64)).wrapping_mul(FNV_PRIME);
        i = i + 1;
    }
    assert(bytes@.take(bytes@.len() as int) =~= bytes@);
    h
}

fn hash_length(hash: u64, length: u64) -> (result: u64)
    ensures
        result == fnv(hash, le_bytes(length)),
{
    let mut h = hash;
    let mut i: u64 = 0;
    while i < 8
        invariant
            i <= 8,
            h == fnv(hash, le_bytes(length).take(i as int)),
        decreases 8 - i,
    {
        assert(le_bytes(length).take(i + 1).drop_last() =~= le_bytes(length).take(i as int));
        let byte = ((length >> (8 * i)) & 0xff) as u8;
        h = (h ^ (byte as u64)).wrapping_mul(FNV_PRIME);
        i = i + 1;
    }
    assert(le_bytes(length).take(8) =~= le_bytes(length));
    h
}

proof fn lemma_fnv_append(hash: u64, a: Seq<u8>, b: Seq<u8>)
    ensures
        fnv(hash, a + b) == fnv(fnv(hash, a), b),
    decreases b.len(),
{
    if b.len() == 0 {
        assert(a + b =~= a);
    } else {
        assert((a + b).drop_last() =~= a + b.drop_last());
        lemma_fnv_append(hash, a, b.drop_last());
    }
}

/// Returns the shard of a request that carries a control identifier: the same
/// authority and identifier always map to the same shard.
pub fn stable_shard(authority: &[u8], request_id: &[u8], count: usize) -> (shard: usize)
    requires
        count > 0,
    ensures
        shard == request_hash(authority@, request_id@) % (count as u64),
        shard < count,
{
    let h0 = hash_length(FNV_OFFSET, authority.len() as u64);
    let h1 = hash_bytes(h0, authority);
    let h2 = hash_length(h1, request_id.len() as u64);
    let h3 = hash_bytes(h2, request_id);
    proof {
        let la = le_bytes(authority@.len() as u64);
        let lb = le_bytes(request_id@.len() as u64);
        lemma_fnv_append(FNV_OFFSET, la, authority@);
        lemma_fnv_append(FNV_OFFSET, la + authority@, lb);
        lemma_fnv_append(FNV_OFFSET, la + authority@ + lb, request_id@);
    }
    (h3 % (count as u64)) as usize
}

/// Returns the shard of a request: requests with a non-empty control identifier go to
/// their stable shard; the others take turns, by the `ticket` they drew from a shared
/// counter. Also returns whether the ticket was used.
pub fn request_shard(authority: &[u8], request_id: Option<&[u8]>, count: usize, ticket: usize) -> (result: (usize, bool))
    requires
        count > 0,
    ensures
        match request_id {
            Some(id) if id@.len() > 0 => result == (
                (request_hash(authority@, id@) % (count as u64)) as usize,
                false,
            ),
            _ => result == ((ticket % count) as usize, true),
        },
        result.0 < count,
{
    match request_id {
        Some(id) => {
            if id.len() > 0 {
                return (stable_shard(authority, id, count), false);
            }
        },
        None => {},
    }
    (ticket % count, true)
}

/// How a transport failure happened.
#[derive(Clone, Copy, Debug, PartialEq, Eq, Structural)]
pub enum TransportFailureKind {
    /// The connection could not be established.
    Connect,
    /// The connection failed afterwards.
    Io,
}

/// Returns the failure class of a transport failure.
pub fn transport_failure_class(kind: TransportFailureKind) -> (class: FailureClass)
    ensures
        kind == TransportFailureKind::Connect ==> class == FailureClass::Connect,
        kind == TransportFailureKind::Io ==> class == FailureClass::Transport,
{
    match kind {
        TransportFailureKind::Connect => FailureClass::Connect,
        TransportFailureKind::Io => FailureClass::Transport,
    }
}

/// How sending an attempt's request went.
#[derive(Clone, Copy)]
pub enum SendOutcome {
    /// The invocation deadline elapsed first.
    DeadlineElapsed,
    /// The transport failed.
    Failed(TransportFailureKind),
    /// The peer answered with this HTTP version.
    Responded(HttpVersion),
}

/// How decoding an attempt's response went.
#[derive(Clone, Copy)]
pub enum DecodeOutcome {
    /// The invocation deadline elapsed first.
    DeadlineElapsed,
    /// The response decoded into an error of this class, with this retry delay.
    Failed(FailureClass, Option<Duration>),
    /// The response decoded.
    Succeeded,
}

/// What an attempt's terminal learns from sending its request: an elapsed deadline
/// is a timeout, a transport failure is classified by its kind, and an answer records
/// the peer's HTTP version.
pub fn observe_send(observation: AttemptObservation, outcome: SendOutcome) -> (next: AttemptObservation)
    ensures
        match outcome {
            SendOutcome::DeadlineElapsed => next == AttemptObservation {
                failure: Some(FailureClass::Timeout),
                ..observation
            },
            SendOutcome::Failed(TransportFailureKind::Connect) => next == AttemptObservation {
                failure: Some(FailureClass::Connect),
                ..observation
            },
            SendOutcome::Failed(TransportFailureKind::Io) => next == AttemptObservation {
                failure: Some(FailureClass::Transport),
                ..observation
            },
            SendOutcome::Responded(version) => next == AttemptObservation {
                http_version: Some(version),
                ..observation
            },
        },
{
    match outcome {
        SendOutcome::DeadlineElapsed => AttemptObservation { failure: Some(FailureClass::Timeout), ..observation },
        SendOutcome::Failed(kind) => AttemptObservation { failure: Some(transport_failure_class(kind)), ..observation },
        SendOutcome::Responded(version) => AttemptObservation { http_version: Some(version), ..observation },
    }
}

/// What an attempt's terminal learns from decoding the response: an elapsed deadline
/// is a timeout, a decoded error brings its class and retry delay, and a decoded
/// response marks the exchange as completed.
pub fn observe_decode(observation: AttemptObservation, outcome: DecodeOutcome) -> (next: AttemptObservation)
    ensures
        match outcome {
            DecodeOutcome::DeadlineElapsed => next == AttemptObservation {
                failure: Some(FailureClass::Timeout),
                ..observation
            },
            DecodeOutcome::Failed(class, retry_after) => next == AttemptObservation {
                failure: Some(class),
                retry_after,
                ..observation
            },
            DecodeOutcome::Succeeded => next == AttemptObservation { transport_succeeded: true, ..observation },
        },
{
    match outcome {
        DecodeOutcome::DeadlineElapsed => AttemptObservation { failure: Some(FailureClass::Timeout), ..observation },
        DecodeOutcome::Failed(class, retry_after) => AttemptObservation { failure: Some(class), retry_after, ..observation },
        DecodeOutcome::Succeeded => AttemptObservation { transport_succeeded: true, ..observation },
    }
}

} // verus!
