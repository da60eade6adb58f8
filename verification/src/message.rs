//! The messages exchanged between the connection process and the monitor,
//! and their mathematical views.
//!
//! A request is one of six operations. A response is either an error message
//! or a value whose type is fixed by the request it answers.

use crate::wire::{pair_texts, text_opt};
use vstd::prelude::*;

verus! {

/// Window size and terminal modes for a pseudo-terminal.
#[derive(Clone, Debug, PartialEq, Eq)]
pub struct PtyRequest {
    pub height_rows: u32,
    pub width_chars: u32,
    pub width_px: u32,
    pub height_px: u32,
    pub term_modes: Vec<u8>,
}

/// What to run for the authenticated user.
#[derive(Clone, Debug, PartialEq, Eq)]
pub struct ShellRequest {
    /// Whether a pseudo-terminal is used and, if so, the value of `TERM`.
    pub pty_term: Option<String>,
    /// A command for the shell to run, or `None` for the shell itself.
    pub command: Option<String>,
    /// Environment variables, in the order in which they are applied.
    pub env: Vec<(String, String)>,
}

/// The question whether a user may log in with a public key.
#[derive(Clone, Debug, PartialEq, Eq)]
pub struct CheckPubkey {
    pub user: String,
    pub session_identifier: [u8; 32],
    pub pubkey_alg_name: String,
    pub pubkey: Vec<u8>,
}

/// A user's signature over the session identifier, to be verified.
#[derive(Clone, Debug, PartialEq, Eq)]
pub struct VerifySignature {
    pub user: String,
    pub session_identifier: [u8; 32],
    pub pubkey_alg_name: String,
    pub pubkey: Vec<u8>,
    pub signature: Vec<u8>,
}

/// A request from the connection process to the monitor.
#[derive(Clone, Debug, PartialEq, Eq)]
pub enum Request {
    /// Sign an exchange hash with the host key that has this public key.
    Sign { hash: [u8; 32], public_key: Vec<u8> },
    /// Ask whether the user may log in with this public key.
    CheckPublicKey(CheckPubkey),
    /// Verify the user's signature over the session identifier. On success
    /// the monitor remembers the user for the rest of the connection.
    VerifySignature(VerifySignature),
    /// Allocate a pseudo-terminal and hand over its controller.
    PtyReq(PtyRequest),
    /// Run the shell of the authenticated user.
    Shell(ShellRequest),
    /// Wait for the running child to finish.
    Wait,
}

/// Which of the six operations a request asks for.
#[derive(Clone, Copy, Debug, PartialEq, Eq, Structural)]
pub enum RequestKind {
    Sign,
    CheckPublicKey,
    VerifySignature,
    PtyReq,
    Shell,
    Wait,
}

/// The value of a successful response.
#[derive(Clone, Debug, PartialEq, Eq)]
pub enum Payload {
    /// The signature over the exchange hash.
    Signature(Vec<u8>),
    /// The answer to a key check or a signature verification.
    Flag(bool),
    /// Nothing: the operation was carried out.
    Unit,
    /// The exit code of the child, if it has one.
    ExitCode(Option<i32>),
}

/// The type of value that a successful response carries.
#[derive(Clone, Copy, Debug, PartialEq, Eq, Structural)]
pub enum PayloadType {
    Signature,
    Flag,
    Unit,
    ExitCode,
}

/// View of a [`PtyRequest`].
pub struct PtyRequestView {
    pub height_rows: u32,
    pub width_chars: u32,
    pub width_px: u32,
    pub height_px: u32,
    pub term_modes: Seq<u8>,
}

/// View of a [`ShellRequest`].
pub struct ShellRequestView {
    pub pty_term: Option<Seq<char>>,
    pub command: Option<Seq<char>>,
    pub env: Seq<(Seq<char>, Seq<char>)>,
}

/// View of a [`CheckPubkey`].
pub struct CheckPubkeyView {
    pub user: Seq<char>,
    pub session_identifier: Seq<u8>,
    pub pubkey_alg_name: Seq<char>,
    pub pubkey: Seq<u8>,
}

/// View of a [`VerifySignature`].
pub struct VerifySignatureView {
    pub user: Seq<char>,
    pub session_identifier: Seq<u8>,
    pub pubkey_alg_name: Seq<char>,
    pub pubkey: Seq<u8>,
    pub signature: Seq<u8>,
}

/// View of a [`Request`].
pub enum RequestView {
    Sign { hash: Seq<u8>, public_key: Seq<u8> },
    CheckPublicKey(CheckPubkeyView),
    VerifySignature(VerifySignatureView),
    PtyReq(PtyRequestView),
    Shell(ShellRequestView),
    Wait,
}

/// View of a [`Payload`].
pub enum PayloadView {
    Signature(Seq<u8>),
    Flag(bool),
    Unit,
    ExitCode(Option<i32>),
}

/// View of a response: an error message or the view of its payload.
pub open spec fn response_view(r: Result<Payload, String>) -> Result<PayloadView, Seq<char>> {
    match r {
        Ok(p) => Ok(p@),
        Err(e) => Err(e@),
    }
}

impl View for PtyRequest {
    type V = PtyRequestView;

    open spec fn view(&self) -> PtyRequestView {
        PtyRequestView {
            height_rows: self.height_rows,
            width_chars: self.width_chars,
            width_px: self.width_px,
            height_px: self.height_px,
            term_modes: self.term_modes@,
        }
    }
}

impl View for ShellRequest {
    type V = ShellRequestView;

    open spec fn view(&self) -> ShellRequestView {
        ShellRequestView {
            pty_term: text_opt(self.pty_term),
            command: text_opt(self.command),
            env: pair_texts(self.env@),
        }
    }
}

impl View for CheckPubkey {
    type V = CheckPubkeyView;

    open spec fn view(&self) -> CheckPubkeyView {
        CheckPubkeyView {
            user: self.user@,
            session_identifier: self.session_identifier@,
            pubkey_alg_name: self.pubkey_alg_name@,
            pubkey: self.pubkey@,
        }
    }
}

impl View for VerifySignature {
    type V = VerifySignatureView;

    open spec fn view(&self) -> VerifySignatureView {
        VerifySignatureView {
            user: self.user@,
            session_identifier: self.session_identifier@,
            pubkey_alg_name: self.pubkey_alg_name@,
            pubkey: self.pubkey@,
            signature: self.signature@,
        }
    }
}

impl View for Request {
    type V = RequestView;

    open spec fn view(&self) -> RequestView {
        match *self {
            Request::Sign { hash, public_key } => RequestView::Sign {
                hash: hash@,
                public_key: public_key@,
            },
            Request::CheckPublicKey(r) => RequestView::CheckPublicKey(r@),
            Request::VerifySignature(r) => RequestView::VerifySignature(r@),
            Request::PtyReq(r) => RequestView::PtyReq(r@),
            Request::Shell(r) => RequestView::Shell(r@),
            Request::Wait => RequestView::Wait,
        }
    }
}

impl View for Payload {
    type V = PayloadView;

    open spec fn view(&self) -> PayloadView {
        match *self {
            Payload::Signature(s) => PayloadView::Signature(s@),
            Payload::Flag(b) => PayloadView::Flag(b),
            Payload::Unit => PayloadView::Unit,
            Payload::ExitCode(c) => PayloadView::ExitCode(c),
        }
    }
}

impl RequestView {
    /// The operation that this request asks for.
    pub open spec fn kind(self) -> RequestKind {
        match self {
            RequestView::Sign { .. } => RequestKind::Sign,
            RequestView::CheckPublicKey(_) => RequestKind::CheckPublicKey,
            RequestView::VerifySignature(_) => RequestKind::VerifySignature,
            RequestView::PtyReq(_) => RequestKind::PtyReq,
            RequestView::Shell(_) => RequestKind::Shell,
            RequestView::Wait => RequestKind::Wait,
        }
    }
}

impl PayloadView {
    /// The type of this value.
    pub open spec fn payload_type(self) -> PayloadType {
        match self {
            PayloadView::Signature(_) => PayloadType::Signature,
            PayloadView::Flag(_) => PayloadType::Flag,
            PayloadView::Unit => PayloadType::Unit,
            PayloadView::ExitCode(_) => PayloadType::ExitCode,
        }
    }
}

impl RequestKind {
    /// The type of value that a successful response to this operation
    /// carries.
    pub open spec fn spec_reply_type(self) -> PayloadType {
        match self {
            RequestKind::Sign => PayloadType::Signature,
            RequestKind::CheckPublicKey => PayloadType::Flag,
            RequestKind::VerifySignature => PayloadType::Flag,
            RequestKind::PtyReq => PayloadType::Unit,
            RequestKind::Shell => PayloadType::Unit,
            RequestKind::Wait => PayloadType::ExitCode,
        }
    }

    /// The type of value that a successful response to this operation
    /// carries.
    #[verifier::when_used_as_spec(spec_reply_type)]
    pub fn reply_type(self) -> (t: PayloadType)
        ensures
            t == self.spec_reply_type(),
    {
        match self {
            RequestKind::Sign => PayloadType::Signature,
            RequestKind::CheckPublicKey => PayloadType::Flag,
            RequestKind::VerifySignature => PayloadType::Flag,
            RequestKind::PtyReq => PayloadType::Unit,
            RequestKind::Shell => PayloadType::Unit,
            RequestKind::Wait => PayloadType::ExitCode,
        }
    }
}

impl Request {
    /// The operation that this request asks for.
    pub fn kind(&self) -> (k: RequestKind)
        ensures
            k == self@.kind(),
    {
        match self {
            Request::Sign { .. } => RequestKind::Sign,
            Request::CheckPublicKey(_) => RequestKind::CheckPublicKey,
            Request::VerifySignature(_) => RequestKind::VerifySignature,
            Request::PtyReq(_) => RequestKind::PtyReq,
            Request::Shell(_) => RequestKind::Shell,
            Request::Wait => RequestKind::Wait,
        }
    }
}

} // verus!
