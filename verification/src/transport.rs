//! Rules of the datagram transport that carries one message and up to three
//! file descriptors between the monitor and the connection process.
//!
//! The socket calls themselves belong to the caller. This module decides
//! whether a datagram may be sent, whether what the kernel delivered is an
//! acceptable datagram, and which message it carries.

use crate::codec::{decode_request, decode_response, parse_request, parse_response};
use crate::message::{response_view, Payload, PayloadType, PayloadView, Request, RequestView};
use vstd::prelude::*;
use vstd::slice::slice_subrange;

verus! {

/// Largest payload, in bytes, that one datagram may carry.
pub const MAX_PAYLOAD: usize = 1024;

/// Largest number of file descriptors that one datagram may carry.
pub const MAX_FDS: usize = 3;

/// A breach of the protocol between the monitor and the connection process.
/// Each one is fatal to the connection.
#[derive(Clone, Copy, Debug, PartialEq, Eq, Structural)]
pub enum ProtocolError {
    /// The payload is longer than [`MAX_PAYLOAD`], or the kernel cut it short
    /// to fit the receive buffer.
    PayloadTooLarge,
    /// More than [`MAX_FDS`] descriptors, or the kernel dropped some because
    /// the control buffer was full.
    TooManyDescriptors,
    /// A control message that does not pass descriptors.
    UnexpectedAncillary,
    /// The payload is not the encoding of a message of the expected kind.
    Malformed,
    /// The message came with `received` descriptors where its operation
    /// hands over `expected`.
    DescriptorCount { expected: usize, received: usize },
}

/// One control message of a received datagram, reduced to what the protocol
/// cares about.
#[derive(Clone, Copy, Debug, PartialEq, Eq, Structural)]
pub enum Ancillary {
    /// A rights-passing message that carries this many descriptors.
    Rights(usize),
    /// Any other kind of control message.
    Other,
}

/// What one receive call on the socket reported.
#[derive(Clone, Debug, PartialEq, Eq)]
pub struct Received {
    /// Number of payload bytes written to the receive buffer.
    pub bytes: usize,
    /// The kernel flagged the payload as cut short.
    pub payload_truncated: bool,
    /// The kernel flagged the control data as cut short.
    pub control_truncated: bool,
    /// The control messages, in the order the kernel delivered them.
    pub ancillary: Vec<Ancillary>,
}

/// Whether any of the first `n` control messages is not rights-passing.
pub open spec fn has_foreign(msgs: Seq<Ancillary>, n: int) -> bool {
    exists|i: int| 0 <= i < n && i < msgs.len() && msgs[i] is Other
}

/// Total number of descriptors carried by the rights-passing messages.
pub open spec fn descriptor_count(msgs: Seq<Ancillary>) -> nat
    decreases msgs.len(),
{
    if msgs.len() == 0 {
        0
    } else {
        descriptor_count(msgs.drop_last()) + match msgs.last() {
            Ancillary::Rights(n) => n as nat,
            Ancillary::Other => 0,
        }
    }
}

/// The verdict on an outgoing datagram of `payload_len` bytes and `fd_count`
/// descriptors.
pub open spec fn outgoing_verdict(payload_len: nat, fd_count: nat) -> Result<(), ProtocolError> {
    if payload_len > MAX_PAYLOAD {
        Err(ProtocolError::PayloadTooLarge)
    } else if fd_count > MAX_FDS {
        Err(ProtocolError::TooManyDescriptors)
    } else {
        Ok(())
    }
}

/// The verdict on the payload of a received datagram that was read into a
/// buffer of `capacity` bytes: whether all of it arrived and it keeps to
/// the limit.
pub open spec fn payload_verdict(r: Received, capacity: nat) -> Result<(), ProtocolError> {
    if r.payload_truncated || r.bytes > MAX_PAYLOAD || r.bytes > capacity {
        Err(ProtocolError::PayloadTooLarge)
    } else {
        Ok(())
    }
}

/// The verdict on the control data of a received datagram: the number of
/// descriptors that came with it, or the first rule it breaks.
pub open spec fn descriptors_verdict(r: Received) -> Result<usize, ProtocolError> {
    if has_foreign(r.ancillary@, r.ancillary@.len() as int) {
        Err(ProtocolError::UnexpectedAncillary)
    } else if r.control_truncated || descriptor_count(r.ancillary@) > MAX_FDS {
        Err(ProtocolError::TooManyDescriptors)
    } else {
        Ok(descriptor_count(r.ancillary@) as usize)
    }
}

/// What a received datagram yields when a request is expected: the request
/// and the number of descriptors that came with it.
///
/// The payload is judged first, then decoded, then the control data is
/// judged.
pub open spec fn request_received(data: Seq<u8>, r: Received) -> Result<
    (RequestView, usize),
    ProtocolError,
> {
    match payload_verdict(r, data.len()) {
        Err(e) => Err(e),
        Ok(()) => match parse_request(data.take(r.bytes as int)) {
            None => Err(ProtocolError::Malformed),
            Some((request, _)) => match descriptors_verdict(r) {
                Err(e) => Err(e),
                Ok(count) => Ok((request, count)),
            },
        },
    }
}

/// What a received datagram yields when the response to an operation is
/// expected whose value is of the type `expected`: the response and the
/// number of descriptors that came with it.
pub open spec fn response_received(data: Seq<u8>, r: Received, expected: PayloadType) -> Result<
    (Result<PayloadView, Seq<char>>, usize),
    ProtocolError,
> {
    match payload_verdict(r, data.len()) {
        Err(e) => Err(e),
        Ok(()) => match parse_response(data.take(r.bytes as int), expected) {
            None => Err(ProtocolError::Malformed),
            Some((response, _)) => match descriptors_verdict(r) {
                Err(e) => Err(e),
                Ok(count) => Ok((response, count)),
            },
        },
    }
}

/// Decides whether a datagram may be handed to the socket.
pub fn check_outgoing(payload_len: usize, fd_count: usize) -> (verdict: Result<(), ProtocolError>)
    ensures
        verdict == outgoing_verdict(payload_len as nat, fd_count as nat),
{
    if payload_len > MAX_PAYLOAD {
        Err(ProtocolError::PayloadTooLarge)
    } else if fd_count > MAX_FDS {
        Err(ProtocolError::TooManyDescriptors)
    } else {
        Ok(())
    }
}

/// Decides whether the payload of a received datagram arrived whole in a
/// buffer of `capacity` bytes.
pub fn check_payload(r: &Received, capacity: usize) -> (verdict: Result<(), ProtocolError>)
    ensures
        verdict == payload_verdict(*r, capacity as nat),
{
    if r.payload_truncated || r.bytes > MAX_PAYLOAD || r.bytes > capacity {
        Err(ProtocolError::PayloadTooLarge)
    } else {
        Ok(())
    }
}

/// Counts the descriptors that came with a received datagram, and refuses
/// control data that breaks a rule.
pub fn count_descriptors(r: &Received) -> (verdict: Result<usize, ProtocolError>)
    ensures
        verdict == descriptors_verdict(*r),
{
    let mut total: usize = 0;
    let mut over: bool = false;
    let mut i: usize = 0;
    while i < r.ancillary.len()
        invariant
            i <= r.ancillary.len(),
            !has_foreign(r.ancillary@, i as int),
            over <==> descriptor_count(r.ancillary@.take(i as int)) > MAX_FDS,
            !over ==> total == descriptor_count(r.ancillary@.take(i as int)),
        decreases r.ancillary.len() - i,
    {
        proof {
            assert(r.ancillary@.take(i + 1).drop_last() =~= r.ancillary@.take(i as int));
        }
        match r.ancillary[i] {
            Ancillary::Other => {
                assert(r.ancillary@[i as int] is Other);
                return Err(ProtocolError::UnexpectedAncillary);
            },
            Ancillary::Rights(n) => {
                if over || n > MAX_FDS || total > MAX_FDS - n {
                    over = true;
                } else {
                    total = total + n;
                }
            },
        }
        i = i + 1;
    }
    proof {
        assert(r.ancillary@.take(i as int) =~= r.ancillary@);
    }
    if r.control_truncated || over {
        Err(ProtocolError::TooManyDescriptors)
    } else {
        Ok(total)
    }
}

/// Turns a received datagram into the request it carries and the number of
/// descriptors that came with it. `data` is the receive buffer, `r` what
/// the receive call reported.
pub fn receive_request(data: &[u8], r: &Received) -> (received: Result<
    (Request, usize),
    ProtocolError,
>)
    ensures
        match received {
            Ok((request, count)) => request_received(data@, *r) == Ok::<
                (RequestView, usize),
                ProtocolError,
            >((request@, count)),
            Err(e) => request_received(data@, *r) == Err::<(RequestView, usize), ProtocolError>(e),
        },
{
    if let Err(e) = check_payload(r, data.len()) {
        return Err(e);
    }
    let payload = slice_subrange(data, 0, r.bytes);
    proof {
        assert(payload@ =~= data@.take(r.bytes as int));
    }
    let request = match decode_request(payload) {
        Some(request) => request,
        None => {
            return Err(ProtocolError::Malformed);
        },
    };
    match count_descriptors(r) {
        Ok(count) => Ok((request, count)),
        Err(e) => Err(e),
    }
}

/// Turns a received datagram into the response it carries and the number
/// of descriptors that came with it, where the response answers an
/// operation whose value is of the type `expected`.
pub fn receive_response(data: &[u8], r: &Received, expected: PayloadType) -> (received: Result<
    (Result<Payload, String>, usize),
    ProtocolError,
>)
    ensures
        match received {
            Ok((response, count)) => response_received(data@, *r, expected) == Ok::<
                (Result<PayloadView, Seq<char>>, usize),
                ProtocolError,
            >((response_view(response), count)),
            Err(e) => response_received(data@, *r, expected) == Err::<
                (Result<PayloadView, Seq<char>>, usize),
                ProtocolError,
            >(e),
        },
{
    if let Err(e) = check_payload(r, data.len()) {
        return Err(e);
    }
    let payload = slice_subrange(data, 0, r.bytes);
    proof {
        assert(payload@ =~= data@.take(r.bytes as int));
    }
    let response = match decode_response(payload, expected) {
        Some(response) => response,
        None => {
            return Err(ProtocolError::Malformed);
        },
    };
    match count_descriptors(r) {
        Ok(count) => Ok((response, count)),
        Err(e) => Err(e),
    }
}

} // verus!
