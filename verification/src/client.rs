//! The connection process's side of the control channel.
//!
//! For each operation there is a function that makes the request. A request
//! becomes the payload of one datagram, and the datagram that comes back
//! becomes the value that the operation yields, or the reason why it
//! yields none. Only one request may be under way on an endpoint at a time:
//! the response is read against the request that was sent.

use crate::codec::{encode_request, request_wire};
use crate::message::{
    CheckPubkey, Payload, PayloadView, PtyRequest, Request, RequestView, ShellRequest,
    VerifySignature,
};
use crate::transport::{
    check_outgoing, outgoing_verdict, receive_response, response_received, ProtocolError,
    Received,
};
use vstd::prelude::*;

verus! {

/// The maker of requests and reader of responses. It holds no state.
#[derive(Clone, Copy, Debug, PartialEq, Eq)]
pub struct Client;

/// Why an operation yielded no value.
#[derive(Debug, PartialEq, Eq)]
pub enum ClientError {
    /// The datagram did not yield a response, or the response came with the
    /// wrong number of descriptors.
    Protocol(ProtocolError),
    /// The monitor refused the request, with this message.
    Refused(String),
}

/// View of a [`ClientError`].
pub enum ClientErrorView {
    Protocol(ProtocolError),
    Refused(Seq<char>),
}

impl View for ClientError {
    type V = ClientErrorView;

    open spec fn view(&self) -> ClientErrorView {
        match *self {
            ClientError::Protocol(e) => ClientErrorView::Protocol(e),
            ClientError::Refused(message) => ClientErrorView::Refused(message@),
        }
    }
}

/// View of what an operation yields.
pub open spec fn yield_view(y: Result<Payload, ClientError>) -> Result<
    PayloadView,
    ClientErrorView,
> {
    match y {
        Ok(p) => Ok(p@),
        Err(e) => Err(e@),
    }
}

/// How many descriptors a successful response to this request brings: the
/// controller of the pseudo-terminal, the three ends of the child's pipes
/// when it runs without a terminal, and none in every other case.
pub open spec fn descriptors_expected(request: RequestView) -> usize {
    match request {
        RequestView::PtyReq(_) => 1,
        RequestView::Shell(s) => if s.pty_term is None {
            3
        } else {
            0
        },
        _ => 0,
    }
}

/// The payload of the datagram that carries a request, or the rule of the
/// transport that the request breaks.
pub open spec fn request_datagram(request: RequestView) -> Result<Seq<u8>, ProtocolError> {
    match outgoing_verdict(request_wire(request).len(), 0) {
        Ok(()) => Ok(request_wire(request)),
        Err(e) => Err(e),
    }
}

/// What the operation yields when the datagram `data`, reported as `r`,
/// answers the request `sent`.
///
/// A datagram that yields no response fails the operation. A refusal fails
/// it with the monitor's message. A value is yielded only when exactly the
/// descriptors of the operation came with it.
pub open spec fn yielded(sent: RequestView, data: Seq<u8>, r: Received) -> Result<
    PayloadView,
    ClientErrorView,
> {
    match response_received(data, r, sent.kind().spec_reply_type()) {
        Err(e) => Err(ClientErrorView::Protocol(e)),
        Ok((Err(message), _)) => Err(ClientErrorView::Refused(message)),
        Ok((Ok(payload), count)) => if count == descriptors_expected(sent) {
            Ok(payload)
        } else {
            Err(
                ClientErrorView::Protocol(
                    ProtocolError::DescriptorCount {
                        expected: descriptors_expected(sent),
                        received: count,
                    },
                ),
            )
        },
    }
}

impl Client {
    /// The request to sign an exchange hash with the host key that has this
    /// public key.
    pub fn sign(&self, hash: [u8; 32], public_key: Vec<u8>) -> (request: Request)
        ensures
            request@ == (RequestView::Sign { hash: hash@, public_key: public_key@ }),
    {
        Request::Sign { hash, public_key }
    }

    /// The request to check whether a user may log in with a public key.
    pub fn check_public_key(
        &self,
        user: String,
        session_identifier: [u8; 32],
        pubkey_alg_name: String,
        pubkey: Vec<u8>,
    ) -> (request: Request)
        ensures
            request == Request::CheckPublicKey(
                CheckPubkey { user, session_identifier, pubkey_alg_name, pubkey },
            ),
    {
        Request::CheckPublicKey(CheckPubkey { user, session_identifier, pubkey_alg_name, pubkey })
    }

    /// The request to verify a user's signature over the session
    /// identifier.
    pub fn verify_signature(
        &self,
        user: String,
        session_identifier: [u8; 32],
        pubkey_alg_name: String,
        pubkey: Vec<u8>,
        signature: Vec<u8>,
    ) -> (request: Request)
        ensures
            request == Request::VerifySignature(
                VerifySignature { user, session_identifier, pubkey_alg_name, pubkey, signature },
            ),
    {
        Request::VerifySignature(
            VerifySignature { user, session_identifier, pubkey_alg_name, pubkey, signature },
        )
    }

    /// The request for a pseudo-terminal.
    pub fn pty_req(
        &self,
        width_chars: u32,
        height_rows: u32,
        width_px: u32,
        height_px: u32,
        term_modes: Vec<u8>,
    ) -> (request: Request)
        ensures
            request == Request::PtyReq(
                PtyRequest { height_rows, width_chars, width_px, height_px, term_modes },
            ),
    {
        Request::PtyReq(PtyRequest { height_rows, width_chars, width_px, height_px, term_modes })
    }

    /// The request to run the user's shell, or a command in it.
    pub fn shell(
        &self,
        command: Option<String>, pty_term: Option<String>, env: Vec<(String, String)>) -> (request:
        Request)
        ensures
            request == Request::Shell(ShellRequest { pty_term, command, env }),
    {
        Request::Shell(ShellRequest { pty_term, command, env })
    }

    /// The request to wait for the running child.
    pub fn wait(&self) -> (request: Request)
        ensures
            request == Request::Wait,
    {
        Request::Wait
    }

    /// Encodes a request as the payload of one datagram. A request brings
    /// no descriptors.
    pub fn send_request(&self, request: &Request) -> (datagram: Result<Vec<u8>, ProtocolError>)
        ensures
            match datagram {
                Ok(payload) => request_datagram(request@) == Ok::<Seq<u8>, ProtocolError>(
                    payload@,
                ),
                Err(e) => request_datagram(request@) == Err::<Seq<u8>, ProtocolError>(e),
            },
    {
        let payload = encode_request(request);
        match check_outgoing(payload.len(), 0) {
            Ok(()) => Ok(payload),
            Err(e) => Err(e),
        }
    }

    /// How many descriptors a successful response to this request brings.
    pub fn expected_descriptors(&self, request: &Request) -> (count: usize)
        ensures
            count == descriptors_expected(request@),
    {
        match request {
            Request::PtyReq(_) => 1,
            Request::Shell(s) => {
                if s.pty_term.is_none() {
                    3
                } else {
                    0
                }
            },
            _ => 0,
        }
    }

    /// Reads the datagram that answers the request `sent`. `data` is the
    /// receive buffer, `r` what the receive call reported.
    pub fn recv_response_ancillary(
        &self,
        sent: &Request, data: &[u8], r: &Received) -> (outcome: Result<
        Payload,
        ClientError,
    >)
        ensures
            yield_view(outcome) == yielded(sent@, data@, *r),
    {
        let expected = self.expected_descriptors(sent);
        match receive_response(data, r, sent.kind().reply_type()) {
            Err(e) => Err(ClientError::Protocol(e)),
            Ok((Err(message), _)) => Err(ClientError::Refused(message)),
            Ok((Ok(payload), count)) => {
                if count == expected {
                    Ok(payload)
                } else {
                    Err(
                        ClientError::Protocol(
                            ProtocolError::DescriptorCount { expected, received: count },
                        ),
                    )
                }
            },
        }
    }
}

} // verus!
