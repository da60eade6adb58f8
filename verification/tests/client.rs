//! The connection process's side: making requests and reading responses.

use privsep_ssh::client::{Client, ClientError};
use privsep_ssh::codec::{decode_request, encode_response};
use privsep_ssh::message::{
    CheckPubkey, Payload, PtyRequest, Request, ShellRequest, VerifySignature,
};
use privsep_ssh::transport::{Ancillary, ProtocolError, Received};

fn arrival(bytes: usize, descriptors: usize) -> Received {
    Received {
        bytes,
        payload_truncated: false,
        control_truncated: false,
        ancillary: if descriptors == 0 {
            vec![]
        } else {
            vec![Ancillary::Rights(descriptors)]
        },
    }
}

fn answer(sent: &Request, response: Result<Payload, String>, descriptors: usize) -> Result<Payload, ClientError> {
    let bytes = encode_response(&response);
    Client.recv_response_ancillary(sent, &bytes, &arrival(bytes.len(), descriptors))
}

#[test]
fn requests_are_built_from_their_arguments() {
    assert_eq!(
        Client.sign([1; 32], vec![2, 3]),
        Request::Sign {
            hash: [1; 32],
            public_key: vec![2, 3]
        }
    );
    assert_eq!(
        Client.check_public_key("u".to_string(), [2; 32], "alg".to_string(), vec![4]),
        Request::CheckPublicKey(CheckPubkey {
            user: "u".to_string(),
            session_identifier: [2; 32],
            pubkey_alg_name: "alg".to_string(),
            pubkey: vec![4],
        })
    );
    assert_eq!(
        Client.verify_signature("u".to_string(), [2; 32], "alg".to_string(), vec![4], vec![5]),
        Request::VerifySignature(VerifySignature {
            user: "u".to_string(),
            session_identifier: [2; 32],
            pubkey_alg_name: "alg".to_string(),
            pubkey: vec![4],
            signature: vec![5],
        })
    );
    // The width comes first, the height second.
    assert_eq!(
        Client.pty_req(80, 24, 640, 480, vec![9]),
        Request::PtyReq(PtyRequest {
            height_rows: 24,
            width_chars: 80,
            width_px: 640,
            height_px: 480,
            term_modes: vec![9],
        })
    );
    // The command comes first, the terminal second.
    assert_eq!(
        Client.shell(
            Some("ls".to_string()),
            Some("xterm".to_string()),
            vec![("A".to_string(), "B".to_string())]
        ),
        Request::Shell(ShellRequest {
            pty_term: Some("xterm".to_string()),
            command: Some("ls".to_string()),
            env: vec![("A".to_string(), "B".to_string())],
        })
    );
    assert_eq!(Client.wait(), Request::Wait);
}

#[test]
fn sent_request_is_its_encoding() {
    let request = Client.pty_req(80, 24, 0, 0, vec![]);
    let datagram = Client.send_request(&request).unwrap();
    assert_eq!(datagram, vec![3, 24, 80, 0, 0, 0]);
    assert_eq!(decode_request(&datagram), Some(request));
    assert_eq!(Client.send_request(&Client.wait()), Ok(vec![5]));
}

#[test]
fn request_that_does_not_fit_is_not_sent() {
    // 1 byte operation, 32 bytes hash, 2 bytes length: 989 bytes of key fill
    // the datagram.
    let fits = Client.sign([0; 32], vec![0; 989]);
    assert_eq!(Client.send_request(&fits).map(|d| d.len()), Ok(1024));
    let too_long = Client.sign([0; 32], vec![0; 990]);
    assert_eq!(
        Client.send_request(&too_long),
        Err(ProtocolError::PayloadTooLarge)
    );
}

#[test]
fn expected_descriptors_per_operation() {
    assert_eq!(Client.expected_descriptors(&Client.sign([0; 32], vec![])), 0);
    assert_eq!(
        Client.expected_descriptors(&Client.check_public_key(
            String::new(),
            [0; 32],
            String::new(),
            vec![]
        )),
        0
    );
    assert_eq!(
        Client.expected_descriptors(&Client.verify_signature(
            String::new(),
            [0; 32],
            String::new(),
            vec![],
            vec![]
        )),
        0
    );
    assert_eq!(
        Client.expected_descriptors(&Client.pty_req(1, 1, 1, 1, vec![])),
        1
    );
    assert_eq!(
        Client.expected_descriptors(&Client.shell(None, None, vec![])),
        3
    );
    assert_eq!(
        Client.expected_descriptors(&Client.shell(None, Some("xterm".to_string()), vec![])),
        0
    );
    assert_eq!(Client.expected_descriptors(&Client.wait()), 0);
}

#[test]
fn typed_values_come_back() {
    assert_eq!(
        answer(
            &Client.sign([0; 32], vec![]),
            Ok(Payload::Signature(vec![1, 2, 3])),
            0
        ),
        Ok(Payload::Signature(vec![1, 2, 3]))
    );
    assert_eq!(
        answer(
            &Client.check_public_key(String::new(), [0; 32], String::new(), vec![]),
            Ok(Payload::Flag(false)),
            0
        ),
        Ok(Payload::Flag(false))
    );
    assert_eq!(
        answer(&Client.wait(), Ok(Payload::ExitCode(Some(-9))), 0),
        Ok(Payload::ExitCode(Some(-9)))
    );
    assert_eq!(
        answer(&Client.pty_req(1, 1, 0, 0, vec![]), Ok(Payload::Unit), 1),
        Ok(Payload::Unit)
    );
    assert_eq!(
        answer(&Client.shell(None, None, vec![]), Ok(Payload::Unit), 3),
        Ok(Payload::Unit)
    );
}

#[test]
fn refusal_bears_the_message() {
    assert_eq!(
        answer(&Client.wait(), Err("no child running".to_string()), 0),
        Err(ClientError::Refused("no child running".to_string()))
    );
    // A refusal is reported as such whatever came with it.
    assert_eq!(
        answer(
            &Client.pty_req(1, 1, 0, 0, vec![]),
            Err("already requests pty".to_string()),
            0
        ),
        Err(ClientError::Refused("already requests pty".to_string()))
    );
}

#[test]
fn wrong_number_of_descriptors_fails_the_operation() {
    let pty = Client.pty_req(80, 24, 0, 0, vec![]);
    assert_eq!(
        answer(&pty, Ok(Payload::Unit), 0),
        Err(ClientError::Protocol(ProtocolError::DescriptorCount {
            expected: 1,
            received: 0
        }))
    );
    assert_eq!(
        answer(&pty, Ok(Payload::Unit), 2),
        Err(ClientError::Protocol(ProtocolError::DescriptorCount {
            expected: 1,
            received: 2
        }))
    );
    let piped = Client.shell(None, None, vec![]);
    assert_eq!(
        answer(&piped, Ok(Payload::Unit), 0),
        Err(ClientError::Protocol(ProtocolError::DescriptorCount {
            expected: 3,
            received: 0
        }))
    );
    let on_terminal = Client.shell(None, Some("xterm".to_string()), vec![]);
    assert_eq!(
        answer(&on_terminal, Ok(Payload::Unit), 3),
        Err(ClientError::Protocol(ProtocolError::DescriptorCount {
            expected: 0,
            received: 3
        }))
    );
    assert_eq!(
        answer(&Client.wait(), Ok(Payload::ExitCode(None)), 1),
        Err(ClientError::Protocol(ProtocolError::DescriptorCount {
            expected: 0,
            received: 1
        }))
    );
}

#[test]
fn broken_datagram_fails_the_operation() {
    let wait = Client.wait();
    assert_eq!(
        Client.recv_response_ancillary(&wait, &[0, 9], &arrival(2, 0)),
        Err(ClientError::Protocol(ProtocolError::Malformed))
    );
    assert_eq!(
        Client.recv_response_ancillary(&wait, &[], &arrival(0, 0)),
        Err(ClientError::Protocol(ProtocolError::Malformed))
    );
    let mut cut = arrival(2, 0);
    cut.payload_truncated = true;
    assert_eq!(
        Client.recv_response_ancillary(&wait, &[0, 0], &cut),
        Err(ClientError::Protocol(ProtocolError::PayloadTooLarge))
    );
    let foreign = Received {
        bytes: 2,
        payload_truncated: false,
        control_truncated: false,
        ancillary: vec![Ancillary::Other],
    };
    assert_eq!(
        Client.recv_response_ancillary(&wait, &[0, 0], &foreign),
        Err(ClientError::Protocol(ProtocolError::UnexpectedAncillary))
    );
    assert_eq!(
        Client.recv_response_ancillary(&wait, &[0, 0], &arrival(2, 4)),
        Err(ClientError::Protocol(ProtocolError::TooManyDescriptors))
    );
}

#[test]
fn response_is_read_as_the_type_the_request_declares() {
    // Two zero bytes: "false" for a key check, "no exit code" for a wait.
    assert_eq!(
        Client.recv_response_ancillary(
            &Client.check_public_key(String::new(), [0; 32], String::new(), vec![]),
            &[0, 0],
            &arrival(2, 0)
        ),
        Ok(Payload::Flag(false))
    );
    assert_eq!(
        Client.recv_response_ancillary(&Client.wait(), &[0, 0], &arrival(2, 0)),
        Ok(Payload::ExitCode(None))
    );
}
