//! The byte encoding of requests and responses.
//!
//! A request is the number of its operation followed by its fields in
//! order. A response is 0 and the value, or 1 and the error message. The
//! encoding of a value does not say what type it has: the reader of a
//! response has to know which operation it answers.

use crate::message::{
    CheckPubkey, CheckPubkeyView, Payload, PayloadType, PayloadView, PtyRequest, PtyRequestView,
    Request, RequestView, ShellRequest, ShellRequestView, VerifySignature, VerifySignatureView,
    response_view,
};
use crate::wire::{
    bytes_wire, flag_wire, lemma_block_round_trip, lemma_bytes_round_trip, lemma_flag_round_trip,
    lemma_opt_int32_round_trip, lemma_opt_text_round_trip, lemma_pairs_round_trip,
    lemma_text_round_trip, lemma_u32_round_trip, limit64, opt_int32_wire, opt_text_wire,
    pairs_encodable, pairs_wire, parse_block, parse_bytes, parse_flag, parse_opt_int32,
    parse_opt_text, parse_pairs, parse_text, parse_u32, put_block, put_bytes, put_flag,
    put_opt_int32, put_opt_text, put_pairs, put_text, put_u32, take_block, take_bytes, take_flag,
    take_opt_int32, take_opt_text, take_pairs, take_text, take_u32, text_encodable, text_wire,
    u32_wire,
};
use vstd::prelude::*;

verus! {

/// The encoding of a key check.
pub open spec fn check_pubkey_wire(q: CheckPubkeyView) -> Seq<u8> {
    text_wire(q.user) + q.session_identifier + text_wire(q.pubkey_alg_name) + bytes_wire(q.pubkey)
}

/// The encoding of a signature to verify.
pub open spec fn verify_signature_wire(q: VerifySignatureView) -> Seq<u8> {
    text_wire(q.user) + q.session_identifier + text_wire(q.pubkey_alg_name) + bytes_wire(q.pubkey)
        + bytes_wire(q.signature)
}

/// The encoding of a request for a pseudo-terminal.
pub open spec fn pty_request_wire(p: PtyRequestView) -> Seq<u8> {
    u32_wire(p.height_rows) + u32_wire(p.width_chars) + u32_wire(p.width_px) + u32_wire(
        p.height_px,
    ) + bytes_wire(p.term_modes)
}

/// The encoding of a request for a shell.
pub open spec fn shell_request_wire(s: ShellRequestView) -> Seq<u8> {
    opt_text_wire(s.pty_term) + opt_text_wire(s.command) + pairs_wire(s.env)
}

/// The number that stands for the operation of a request.
pub open spec fn operation_number(r: RequestView) -> u32 {
    match r {
        RequestView::Sign { .. } => 0,
        RequestView::CheckPublicKey(_) => 1,
        RequestView::VerifySignature(_) => 2,
        RequestView::PtyReq(_) => 3,
        RequestView::Shell(_) => 4,
        RequestView::Wait => 5,
    }
}

/// The encoding of the fields of a request.
pub open spec fn fields_wire(r: RequestView) -> Seq<u8> {
    match r {
        RequestView::Sign { hash, public_key } => hash + bytes_wire(public_key),
        RequestView::CheckPublicKey(q) => check_pubkey_wire(q),
        RequestView::VerifySignature(q) => verify_signature_wire(q),
        RequestView::PtyReq(p) => pty_request_wire(p),
        RequestView::Shell(s) => shell_request_wire(s),
        RequestView::Wait => Seq::empty(),
    }
}

/// The encoding of a request: the number of its operation, then its fields.
pub open spec fn request_wire(r: RequestView) -> Seq<u8> {
    u32_wire(operation_number(r)) + fields_wire(r)
}

/// The encoding of the value of a successful response.
pub open spec fn payload_wire(p: PayloadView) -> Seq<u8> {
    match p {
        PayloadView::Signature(s) => bytes_wire(s),
        PayloadView::Flag(f) => flag_wire(f),
        PayloadView::Unit => Seq::empty(),
        PayloadView::ExitCode(c) => opt_int32_wire(c),
    }
}

/// The encoding of a response.
pub open spec fn response_wire(r: Result<PayloadView, Seq<char>>) -> Seq<u8> {
    match r {
        Ok(p) => u32_wire(0) + payload_wire(p),
        Err(e) => u32_wire(1) + text_wire(e),
    }
}

/// What a parser makes of the start of `b` when it expects a key check.
pub open spec fn parse_check_pubkey(b: Seq<u8>) -> Option<(CheckPubkeyView, Seq<u8>)> {
    match parse_text(b) {
        Some((user, b)) => match parse_block(b) {
            Some((session_identifier, b)) => match parse_text(b) {
                Some((pubkey_alg_name, b)) => match parse_bytes(b) {
                    Some((pubkey, b)) => Some(
                        (CheckPubkeyView { user, session_identifier, pubkey_alg_name, pubkey }, b),
                    ),
                    None => None,
                },
                None => None,
            },
            None => None,
        },
        None => None,
    }
}

/// What a parser makes of the start of `b` when it expects a signature to
/// verify.
pub open spec fn parse_verify_signature(b: Seq<u8>) -> Option<(VerifySignatureView, Seq<u8>)> {
    match parse_check_pubkey(b) {
        Some((q, b)) => match parse_bytes(b) {
            Some((signature, b)) => Some(
                (
                    VerifySignatureView {
                        user: q.user,
                        session_identifier: q.session_identifier,
                        pubkey_alg_name: q.pubkey_alg_name,
                        pubkey: q.pubkey,
                        signature,
                    },
                    b,
                ),
            ),
            None => None,
        },
        None => None,
    }
}

/// What a parser makes of the start of `b` when it expects a request for a
/// pseudo-terminal.
pub open spec fn parse_pty_request(b: Seq<u8>) -> Option<(PtyRequestView, Seq<u8>)> {
    match parse_u32(b) {
        Some((height_rows, b)) => match parse_u32(b) {
            Some((width_chars, b)) => match parse_u32(b) {
                Some((width_px, b)) => match parse_u32(b) {
                    Some((height_px, b)) => match parse_bytes(b) {
                        Some((term_modes, b)) => Some(
                            (
                                PtyRequestView {
                                    height_rows,
                                    width_chars,
                                    width_px,
                                    height_px,
                                    term_modes,
                                },
                                b,
                            ),
                        ),
                        None => None,
                    },
                    None => None,
                },
                None => None,
            },
            None => None,
        },
        None => None,
    }
}

/// What a parser makes of the start of `b` when it expects a request for a
/// shell.
pub open spec fn parse_shell_request(b: Seq<u8>) -> Option<(ShellRequestView, Seq<u8>)> {
    match parse_opt_text(b) {
        Some((pty_term, b)) => match parse_opt_text(b) {
            Some((command, b)) => match parse_pairs(b) {
                Some((env, b)) => Some((ShellRequestView { pty_term, command, env }, b)),
                None => None,
            },
            None => None,
        },
        None => None,
    }
}

/// What a parser makes of the start of `b` when it expects the fields of
/// the operation with this number.
pub open spec fn parse_fields(operation: u32, b: Seq<u8>) -> Option<(RequestView, Seq<u8>)> {
    if operation == 0 {
        match parse_block(b) {
            Some((hash, b)) => match parse_bytes(b) {
                Some((public_key, b)) => Some((RequestView::Sign { hash, public_key }, b)),
                None => None,
            },
            None => None,
        }
    } else if operation == 1 {
        match parse_check_pubkey(b) {
            Some((q, b)) => Some((RequestView::CheckPublicKey(q), b)),
            None => None,
        }
    } else if operation == 2 {
        match parse_verify_signature(b) {
            Some((q, b)) => Some((RequestView::VerifySignature(q), b)),
            None => None,
        }
    } else if operation == 3 {
        match parse_pty_request(b) {
            Some((p, b)) => Some((RequestView::PtyReq(p), b)),
            None => None,
        }
    } else if operation == 4 {
        match parse_shell_request(b) {
            Some((s, b)) => Some((RequestView::Shell(s), b)),
            None => None,
        }
    } else if operation == 5 {
        Some((RequestView::Wait, b))
    } else {
        None
    }
}

/// What a parser makes of the start of `b` when it expects a request: the
/// request and the bytes after it, or `None`.
pub open spec fn parse_request(b: Seq<u8>) -> Option<(RequestView, Seq<u8>)> {
    match parse_u32(b) {
        Some((operation, b)) => parse_fields(operation, b),
        None => None,
    }
}

/// What a parser makes of the start of `b` when it expects a value of the
/// type `expected`.
pub open spec fn parse_payload(b: Seq<u8>, expected: PayloadType) -> Option<
    (PayloadView, Seq<u8>),
> {
    match expected {
        PayloadType::Signature => match parse_bytes(b) {
            Some((s, b)) => Some((PayloadView::Signature(s), b)),
            None => None,
        },
        PayloadType::Flag => match parse_flag(b) {
            Some((f, b)) => Some((PayloadView::Flag(f), b)),
            None => None,
        },
        PayloadType::Unit => Some((PayloadView::Unit, b)),
        PayloadType::ExitCode => match parse_opt_int32(b) {
            Some((c, b)) => Some((PayloadView::ExitCode(c), b)),
            None => None,
        },
    }
}

/// What a parser makes of the start of `b` when it expects a response whose
/// value, if it has one, is of the type `expected`.
pub open spec fn parse_response(b: Seq<u8>, expected: PayloadType) -> Option<
    (Result<PayloadView, Seq<char>>, Seq<u8>),
> {
    match parse_u32(b) {
        Some((outcome, b)) => if outcome == 0 {
            match parse_payload(b, expected) {
                Some((p, b)) => Some((Ok(p), b)),
                None => None,
            }
        } else if outcome == 1 {
            match parse_text(b) {
                Some((e, b)) => Some((Err(e), b)),
                None => None,
            }
        } else {
            None
        },
        None => None,
    }
}

/// Whether a request can be encoded: its hashes and session identifiers are
/// 32 bytes long, and every length in it fits in 64 bits.
pub open spec fn request_encodable(r: RequestView) -> bool {
    match r {
        RequestView::Sign { hash, public_key } => hash.len() == 32 && public_key.len() < limit64(),
        RequestView::CheckPublicKey(q) => {
            &&& text_encodable(q.user)
            &&& q.session_identifier.len() == 32
            &&& text_encodable(q.pubkey_alg_name)
            &&& q.pubkey.len() < limit64()
        },
        RequestView::VerifySignature(q) => {
            &&& text_encodable(q.user)
            &&& q.session_identifier.len() == 32
            &&& text_encodable(q.pubkey_alg_name)
            &&& q.pubkey.len() < limit64()
            &&& q.signature.len() < limit64()
        },
        RequestView::PtyReq(p) => p.term_modes.len() < limit64(),
        RequestView::Shell(s) => {
            &&& s.pty_term matches Some(t) ==> text_encodable(t)
            &&& s.command matches Some(t) ==> text_encodable(t)
            &&& pairs_encodable(s.env)
        },
        RequestView::Wait => true,
    }
}

/// Whether a response can be encoded: every length in it fits in 64 bits.
pub open spec fn response_encodable(r: Result<PayloadView, Seq<char>>) -> bool {
    match r {
        Ok(PayloadView::Signature(s)) => s.len() < limit64(),
        Ok(_) => true,
        Err(e) => text_encodable(e),
    }
}

/// Reading an encoded key check gives it back.
pub proof fn lemma_check_pubkey_round_trip(q: CheckPubkeyView, rest: Seq<u8>)
    requires
        request_encodable(RequestView::CheckPublicKey(q)),
    ensures
        parse_check_pubkey(check_pubkey_wire(q) + rest) == Some((q, rest)),
{
    let r3 = bytes_wire(q.pubkey) + rest;
    let r2 = text_wire(q.pubkey_alg_name) + r3;
    let r1 = q.session_identifier + r2;
    assert(check_pubkey_wire(q) + rest =~= text_wire(q.user) + r1);
    lemma_text_round_trip(q.user, r1);
    lemma_block_round_trip(q.session_identifier, r2);
    lemma_text_round_trip(q.pubkey_alg_name, r3);
    lemma_bytes_round_trip(q.pubkey, rest);
}

/// Reading an encoded signature to verify gives it back.
pub proof fn lemma_verify_signature_round_trip(q: VerifySignatureView, rest: Seq<u8>)
    requires
        request_encodable(RequestView::VerifySignature(q)),
    ensures
        parse_verify_signature(verify_signature_wire(q) + rest) == Some((q, rest)),
{
    let head = CheckPubkeyView {
        user: q.user,
        session_identifier: q.session_identifier,
        pubkey_alg_name: q.pubkey_alg_name,
        pubkey: q.pubkey,
    };
    let r1 = bytes_wire(q.signature) + rest;
    assert(verify_signature_wire(q) + rest =~= check_pubkey_wire(head) + r1);
    lemma_check_pubkey_round_trip(head, r1);
    lemma_bytes_round_trip(q.signature, rest);
}

/// Reading an encoded request for a pseudo-terminal gives it back.
pub proof fn lemma_pty_request_round_trip(p: PtyRequestView, rest: Seq<u8>)
    requires
        request_encodable(RequestView::PtyReq(p)),
    ensures
        parse_pty_request(pty_request_wire(p) + rest) == Some((p, rest)),
{
    let r4 = bytes_wire(p.term_modes) + rest;
    let r3 = u32_wire(p.height_px) + r4;
    let r2 = u32_wire(p.width_px) + r3;
    let r1 = u32_wire(p.width_chars) + r2;
    assert(pty_request_wire(p) + rest =~= u32_wire(p.height_rows) + r1);
    lemma_u32_round_trip(p.height_rows, r1);
    lemma_u32_round_trip(p.width_chars, r2);
    lemma_u32_round_trip(p.width_px, r3);
    lemma_u32_round_trip(p.height_px, r4);
    lemma_bytes_round_trip(p.term_modes, rest);
}

/// Reading an encoded request for a shell gives it back.
pub proof fn lemma_shell_request_round_trip(s: ShellRequestView, rest: Seq<u8>)
    requires
        request_encodable(RequestView::Shell(s)),
    ensures
        parse_shell_request(shell_request_wire(s) + rest) == Some((s, rest)),
{
    let r2 = pairs_wire(s.env) + rest;
    let r1 = opt_text_wire(s.command) + r2;
    assert(shell_request_wire(s) + rest =~= opt_text_wire(s.pty_term) + r1);
    lemma_opt_text_round_trip(s.pty_term, r1);
    lemma_opt_text_round_trip(s.command, r2);
    lemma_pairs_round_trip(s.env, rest);
}

/// Reading the encoded fields of a request gives the request back.
pub proof fn lemma_fields_round_trip(r: RequestView, rest: Seq<u8>)
    requires
        request_encodable(r),
    ensures
        parse_fields(operation_number(r), fields_wire(r) + rest) == Some((r, rest)),
{
    match r {
        RequestView::Sign { hash, public_key } => {
            let r1 = bytes_wire(public_key) + rest;
            assert(fields_wire(r) + rest =~= hash + r1);
            lemma_block_round_trip(hash, r1);
            lemma_bytes_round_trip(public_key, rest);
        },
        RequestView::CheckPublicKey(q) => {
            lemma_check_pubkey_round_trip(q, rest);
        },
        RequestView::VerifySignature(q) => {
            lemma_verify_signature_round_trip(q, rest);
        },
        RequestView::PtyReq(p) => {
            lemma_pty_request_round_trip(p, rest);
        },
        RequestView::Shell(s) => {
            lemma_shell_request_round_trip(s, rest);
        },
        RequestView::Wait => {
            assert(fields_wire(r) + rest =~= rest);
        },
    }
}

/// Reading an encoded request gives the request back and leaves what
/// followed it.
pub proof fn lemma_request_round_trip(r: RequestView, rest: Seq<u8>)
    requires
        request_encodable(r),
    ensures
        parse_request(request_wire(r) + rest) == Some((r, rest)),
{
    let r1 = fields_wire(r) + rest;
    assert(request_wire(r) + rest =~= u32_wire(operation_number(r)) + r1);
    lemma_u32_round_trip(operation_number(r), r1);
    lemma_fields_round_trip(r, rest);
}

/// Reading an encoded response, knowing the type of its value, gives the
/// response back and leaves what followed it.
pub proof fn lemma_response_round_trip(
    r: Result<PayloadView, Seq<char>>,
    expected: PayloadType,
    rest: Seq<u8>,
)
    requires
        response_encodable(r),
        r matches Ok(p) ==> p.payload_type() == expected,
    ensures
        parse_response(response_wire(r) + rest, expected) == Some((r, rest)),
{
    match r {
        Ok(p) => {
            let r1 = payload_wire(p) + rest;
            assert(response_wire(r) + rest =~= u32_wire(0) + r1);
            lemma_u32_round_trip(0, r1);
            match p {
                PayloadView::Signature(s) => {
                    lemma_bytes_round_trip(s, rest);
                },
                PayloadView::Flag(f) => {
                    lemma_flag_round_trip(f, rest);
                },
                PayloadView::Unit => {
                    assert(r1 =~= rest);
                },
                PayloadView::ExitCode(c) => {
                    lemma_opt_int32_round_trip(c, rest);
                },
            }
        },
        Err(e) => {
            let r1 = text_wire(e) + rest;
            assert(response_wire(r) + rest =~= u32_wire(1) + r1);
            lemma_u32_round_trip(1, r1);
            lemma_text_round_trip(e, rest);
        },
    }
}

/// Appends the encoding of a key check.
fn put_check_pubkey(out: &mut Vec<u8>, q: &CheckPubkey)
    ensures
        final(out)@ == old(out)@ + check_pubkey_wire(q@),
        request_encodable(RequestView::CheckPublicKey(q@)),
{
    put_text(out, q.user.as_str());
    put_block(out, &q.session_identifier);
    put_text(out, q.pubkey_alg_name.as_str());
    put_bytes(out, q.pubkey.as_slice());
    proof {
        assert(out@ =~= old(out)@ + check_pubkey_wire(q@));
    }
}

/// Reads a key check at `pos`.
fn take_check_pubkey(buf: &[u8], pos: usize) -> (taken: Option<(CheckPubkey, usize)>)
    requires
        pos <= buf.len(),
    ensures
        match taken {
            Some((q, next)) => pos <= next <= buf.len() && parse_check_pubkey(
                buf@.skip(pos as int),
            ) == Some((q@, buf@.skip(next as int))),
            None => parse_check_pubkey(buf@.skip(pos as int)) is None,
        },
{
    let (user, pos) = match take_text(buf, pos) {
        Some(taken) => taken,
        None => {
            return None;
        },
    };
    let (session_identifier, pos) = match take_block(buf, pos) {
        Some(taken) => taken,
        None => {
            return None;
        },
    };
    let (pubkey_alg_name, pos) = match take_text(buf, pos) {
        Some(taken) => taken,
        None => {
            return None;
        },
    };
    let (pubkey, pos) = match take_bytes(buf, pos) {
        Some(taken) => taken,
        None => {
            return None;
        },
    };
    Some((CheckPubkey { user, session_identifier, pubkey_alg_name, pubkey }, pos))
}

/// Appends the encoding of a signature to verify.
fn put_verify_signature(out: &mut Vec<u8>, q: &VerifySignature)
    ensures
        final(out)@ == old(out)@ + verify_signature_wire(q@),
        request_encodable(RequestView::VerifySignature(q@)),
{
    put_text(out, q.user.as_str());
    put_block(out, &q.session_identifier);
    put_text(out, q.pubkey_alg_name.as_str());
    put_bytes(out, q.pubkey.as_slice());
    put_bytes(out, q.signature.as_slice());
    proof {
        assert(out@ =~= old(out)@ + verify_signature_wire(q@));
    }
}

/// Reads a signature to verify at `pos`.
fn take_verify_signature(buf: &[u8], pos: usize) -> (taken: Option<(VerifySignature, usize)>)
    requires
        pos <= buf.len(),
    ensures
        match taken {
            Some((q, next)) => pos <= next <= buf.len() && parse_verify_signature(
                buf@.skip(pos as int),
            ) == Some((q@, buf@.skip(next as int))),
            None => parse_verify_signature(buf@.skip(pos as int)) is None,
        },
{
    let (head, pos) = match take_check_pubkey(buf, pos) {
        Some(taken) => taken,
        None => {
            return None;
        },
    };
    let (signature, pos) = match take_bytes(buf, pos) {
        Some(taken) => taken,
        None => {
            return None;
        },
    };
    let CheckPubkey { user, session_identifier, pubkey_alg_name, pubkey } = head;
    Some((VerifySignature { user, session_identifier, pubkey_alg_name, pubkey, signature }, pos))
}

/// Appends the encoding of a request for a pseudo-terminal.
fn put_pty_request(out: &mut Vec<u8>, p: &PtyRequest)
    ensures
        final(out)@ == old(out)@ + pty_request_wire(p@),
        request_encodable(RequestView::PtyReq(p@)),
{
    put_u32(out, p.height_rows);
    put_u32(out, p.width_chars);
    put_u32(out, p.width_px);
    put_u32(out, p.height_px);
    put_bytes(out, p.term_modes.as_slice());
    proof {
        assert(out@ =~= old(out)@ + pty_request_wire(p@));
    }
}

/// Reads a request for a pseudo-terminal at `pos`.
fn take_pty_request(buf: &[u8], pos: usize) -> (taken: Option<(PtyRequest, usize)>)
    requires
        pos <= buf.len(),
    ensures
        match taken {
            Some((p, next)) => pos <= next <= buf.len() && parse_pty_request(
                buf@.skip(pos as int),
            ) == Some((p@, buf@.skip(next as int))),
            None => parse_pty_request(buf@.skip(pos as int)) is None,
        },
{
    let (height_rows, pos) = match take_u32(buf, pos) {
        Some(taken) => taken,
        None => {
            return None;
        },
    };
    let (width_chars, pos) = match take_u32(buf, pos) {
        Some(taken) => taken,
        None => {
            return None;
        },
    };
    let (width_px, pos) = match take_u32(buf, pos) {
        Some(taken) => taken,
        None => {
            return None;
        },
    };
    let (height_px, pos) = match take_u32(buf, pos) {
        Some(taken) => taken,
        None => {
            return None;
        },
    };
    let (term_modes, pos) = match take_bytes(buf, pos) {
        Some(taken) => taken,
        None => {
            return None;
        },
    };
    Some((PtyRequest { height_rows, width_chars, width_px, height_px, term_modes }, pos))
}

/// Appends the encoding of a request for a shell.
fn put_shell_request(out: &mut Vec<u8>, s: &ShellRequest)
    ensures
        final(out)@ == old(out)@ + shell_request_wire(s@),
        request_encodable(RequestView::Shell(s@)),
{
    put_opt_text(out, &s.pty_term);
    put_opt_text(out, &s.command);
    put_pairs(out, &s.env);
    proof {
        assert(out@ =~= old(out)@ + shell_request_wire(s@));
    }
}

/// Reads a request for a shell at `pos`.
fn take_shell_request(buf: &[u8], pos: usize) -> (taken: Option<(ShellRequest, usize)>)
    requires
        pos <= buf.len(),
    ensures
        match taken {
            Some((s, next)) => pos <= next <= buf.len() && parse_shell_request(
                buf@.skip(pos as int),
            ) == Some((s@, buf@.skip(next as int))),
            None => parse_shell_request(buf@.skip(pos as int)) is None,
        },
{
    let (pty_term, pos) = match take_opt_text(buf, pos) {
        Some(taken) => taken,
        None => {
            return None;
        },
    };
    let (command, pos) = match take_opt_text(buf, pos) {
        Some(taken) => taken,
        None => {
            return None;
        },
    };
    let (env, pos) = match take_pairs(buf, pos) {
        Some(taken) => taken,
        None => {
            return None;
        },
    };
    Some((ShellRequest { pty_term, command, env }, pos))
}

/// Reads the fields of the operation with this number at `pos`.
fn take_fields(operation: u32, buf: &[u8], pos: usize) -> (taken: Option<(Request, usize)>)
    requires
        pos <= buf.len(),
    ensures
        match taken {
            Some((r, next)) => pos <= next <= buf.len() && parse_fields(
                operation,
                buf@.skip(pos as int),
            ) == Some((r@, buf@.skip(next as int))),
            None => parse_fields(operation, buf@.skip(pos as int)) is None,
        },
{
    if operation == 0 {
        let (hash, pos) = match take_block(buf, pos) {
            Some(taken) => taken,
            None => {
                return None;
            },
        };
        match take_bytes(buf, pos) {
            Some((public_key, next)) => Some((Request::Sign { hash, public_key }, next)),
            None => None,
        }
    } else if operation == 1 {
        match take_check_pubkey(buf, pos) {
            Some((q, next)) => Some((Request::CheckPublicKey(q), next)),
            None => None,
        }
    } else if operation == 2 {
        match take_verify_signature(buf, pos) {
            Some((q, next)) => Some((Request::VerifySignature(q), next)),
            None => None,
        }
    } else if operation == 3 {
        match take_pty_request(buf, pos) {
            Some((p, next)) => Some((Request::PtyReq(p), next)),
            None => None,
        }
    } else if operation == 4 {
        match take_shell_request(buf, pos) {
            Some((s, next)) => Some((Request::Shell(s), next)),
            None => None,
        }
    } else if operation == 5 {
        Some((Request::Wait, pos))
    } else {
        None
    }
}

/// The bytes that stand for a request. Every request can be encoded, and
/// reading the bytes gives the request back.
pub fn encode_request(request: &Request) -> (bytes: Vec<u8>)
    ensures
        bytes@ == request_wire(request@),
        request_encodable(request@),
        parse_request(bytes@) == Some((request@, Seq::<u8>::empty())),
{
    let mut out: Vec<u8> = Vec::new();
    match request {
        Request::Sign { hash, public_key } => {
            put_u32(&mut out, 0);
            put_block(&mut out, hash);
            put_bytes(&mut out, public_key.as_slice());
        },
        Request::CheckPublicKey(q) => {
            put_u32(&mut out, 1);
            put_check_pubkey(&mut out, q);
        },
        Request::VerifySignature(q) => {
            put_u32(&mut out, 2);
            put_verify_signature(&mut out, q);
        },
        Request::PtyReq(p) => {
            put_u32(&mut out, 3);
            put_pty_request(&mut out, p);
        },
        Request::Shell(s) => {
            put_u32(&mut out, 4);
            put_shell_request(&mut out, s);
        },
        Request::Wait => {
            put_u32(&mut out, 5);
        },
    }
    proof {
        assert(out@ =~= request_wire(request@));
        lemma_request_round_trip(request@, Seq::empty());
        assert(out@ + Seq::<u8>::empty() =~= out@);
    }
    out
}

/// The request that the start of `buf` stands for, or `None` when it stands
/// for none. Bytes after the request are ignored.
pub fn decode_request(buf: &[u8]) -> (decoded: Option<Request>)
    ensures
        match decoded {
            Some(request) => parse_request(buf@) matches Some((parsed, _)) && parsed == request@,
            None => parse_request(buf@) is None,
        },
{
    proof {
        assert(buf@.skip(0) =~= buf@);
    }
    let (operation, pos) = match take_u32(buf, 0) {
        Some(taken) => taken,
        None => {
            return None;
        },
    };
    match take_fields(operation, buf, pos) {
        Some((request, _)) => Some(request),
        None => None,
    }
}

/// The bytes that stand for a response. Every response can be encoded, and
/// reading the bytes as a response of the right type gives the response
/// back.
pub fn encode_response(response: &Result<Payload, String>) -> (bytes: Vec<u8>)
    ensures
        bytes@ == response_wire(response_view(*response)),
        response_encodable(response_view(*response)),
        forall|expected: PayloadType|
            (response_view(*response) matches Ok(p) ==> p.payload_type() == expected)
                ==> #[trigger] parse_response(bytes@, expected) == Some(
                (response_view(*response), Seq::<u8>::empty()),
            ),
{
    let mut out: Vec<u8> = Vec::new();
    match response {
        Ok(payload) => {
            put_u32(&mut out, 0);
            match payload {
                Payload::Signature(s) => {
                    put_bytes(&mut out, s.as_slice());
                },
                Payload::Flag(f) => {
                    put_flag(&mut out, *f);
                },
                Payload::Unit => {},
                Payload::ExitCode(c) => {
                    put_opt_int32(&mut out, *c);
                },
            }
        },
        Err(message) => {
            put_u32(&mut out, 1);
            put_text(&mut out, message.as_str());
        },
    }
    proof {
        assert(out@ =~= response_wire(response_view(*response)));
        assert(out@ + Seq::<u8>::empty() =~= out@);
        assert forall|expected: PayloadType|
            (response_view(*response) matches Ok(p) ==> p.payload_type() == expected)
                implies #[trigger] parse_response(out@, expected) == Some(
            (response_view(*response), Seq::<u8>::empty()),
        ) by {
            lemma_response_round_trip(response_view(*response), expected, Seq::empty());
        }
    }
    out
}

/// The response that the start of `buf` stands for when its value, if it
/// has one, is of the type `expected`; or `None` when it stands for none.
/// Bytes after the response are ignored.
pub fn decode_response(buf: &[u8], expected: PayloadType) -> (decoded: Option<
    Result<Payload, String>,
>)
    ensures
        match decoded {
            Some(response) => parse_response(buf@, expected) matches Some((parsed, _)) && parsed
                == response_view(response),
            None => parse_response(buf@, expected) is None,
        },
{
    proof {
        assert(buf@.skip(0) =~= buf@);
    }
    let (outcome, pos) = match take_u32(buf, 0) {
        Some(taken) => taken,
        None => {
            return None;
        },
    };
    if outcome == 0 {
        match expected {
            PayloadType::Signature => match take_bytes(buf, pos) {
                Some((s, _)) => Some(Ok(Payload::Signature(s))),
                None => None,
            },
            PayloadType::Flag => match take_flag(buf, pos) {
                Some((f, _)) => Some(Ok(Payload::Flag(f))),
                None => None,
            },
            PayloadType::Unit => Some(Ok(Payload::Unit)),
            PayloadType::ExitCode => match take_opt_int32(buf, pos) {
                Some((c, _)) => Some(Ok(Payload::ExitCode(c))),
                None => None,
            },
        }
    } else if outcome == 1 {
        match take_text(buf, pos) {
            Some((message, _)) => Some(Err(message)),
            None => None,
        }
    } else {
        None
    }
}

} // verus!
