//! End-to-end scenarios: every request travels as bytes from the client to
//! the monitor, and every reply travels back as bytes.

use privsep_ssh::client::{Client, ClientError};
use privsep_ssh::connection::{
    ChannelState, ClientConnection, Delivery, UpdateKind,
};
use privsep_ssh::message::{Payload, Request};
use privsep_ssh::monitor::{
    Descriptors, Effect, Outcome, Reply, Server, Step, UserIdentity, WindowSize,
};
use privsep_ssh::transport::{Ancillary, Received};

fn report(bytes: usize, descriptors: usize) -> Received {
    Received {
        bytes,
        payload_truncated: false,
        control_truncated: false,
        ancillary: if descriptors == 0 {
            vec![]
        } else {
            vec![Ancillary::Rights(descriptors)]
        },
    }
}

fn alice() -> UserIdentity {
    UserIdentity {
        name: "alice".to_string(),
        uid: 1000,
        gid: 1000,
        home: "/home/alice".to_string(),
        shell: "/bin/sh".to_string(),
    }
}

/// Carries a request to the monitor and says what the monitor decided.
fn deliver_request(server: &Server, request: &Request) -> Step {
    let datagram = Client.send_request(request).expect("request fits a datagram");
    let mut buffer = [0u8; 1024];
    buffer[..datagram.len()].copy_from_slice(&datagram);
    server
        .process(&buffer, &report(datagram.len(), 0))
        .expect("request arrives")
}

/// Carries a reply back to the client and says what the operation yields.
fn deliver_reply(sent: &Request, reply: &Reply) -> Result<Payload, ClientError> {
    let datagram = Server::new(vec![]).respond(reply).expect("reply fits a datagram");
    let mut buffer = [0u8; 1024];
    buffer[..datagram.len()].copy_from_slice(&datagram);
    Client.recv_response_ancillary(
        sent,
        &buffer,
        &report(datagram.len(), reply.descriptors.count()),
    )
}

/// A whole exchange: the reply comes at once or from the outcome.
fn exchange(
    server: &mut Server,
    request: Request,
    outcome: Outcome,
) -> (Reply, Result<Payload, ClientError>) {
    let reply = match deliver_request(server, &request) {
        Step::Reply(reply) => reply,
        Step::Perform(_) => server.complete(outcome),
    };
    let yielded = deliver_reply(&request, &reply);
    (reply, yielded)
}

#[test]
fn happy_path_interactive_shell() {
    let loaded_key = vec![7u8; 51];
    let mut server = Server::new(vec![loaded_key.clone()]);

    let sign = Client.sign([0u8; 32], loaded_key);
    let step = deliver_request(&server, &sign);
    assert_eq!(
        step,
        Step::Perform(Effect::Sign {
            key: 0,
            hash: [0u8; 32]
        })
    );
    let reply = server.complete(Outcome::Signed(vec![0xAB; 64]));
    assert_eq!(reply.descriptors, Descriptors::Nothing);
    assert_eq!(
        deliver_reply(&sign, &reply),
        Ok(Payload::Signature(vec![0xAB; 64]))
    );

    let verify = Client.verify_signature(
        "alice".to_string(),
        [1u8; 32],
        "ssh-ed25519".to_string(),
        vec![2u8; 51],
        vec![3u8; 83],
    );
    let (reply, yielded) = exchange(
        &mut server,
        verify,
        Outcome::SignatureVerified(Ok(Some(alice()))),
    );
    assert_eq!(reply.response, Ok(Payload::Flag(true)));
    assert_eq!(yielded, Ok(Payload::Flag(true)));
    assert_eq!(server.authenticated_user(), Some(&alice()));

    let pty = Client.pty_req(80, 24, 0, 0, vec![]);
    let step = deliver_request(&server, &pty);
    assert_eq!(
        step,
        Step::Perform(Effect::OpenPty {
            size: WindowSize {
                rows: 24,
                cols: 80,
                xpixel: 0,
                ypixel: 0
            },
            term_modes: vec![]
        })
    );
    let reply = server.complete(Outcome::PtyOpened(Ok(())));
    assert_eq!(reply.response, Ok(Payload::Unit));
    assert_eq!(reply.descriptors, Descriptors::PtyController);
    assert_eq!(reply.descriptors.count(), 1);
    assert_eq!(deliver_reply(&pty, &reply), Ok(Payload::Unit));

    let shell = Client.shell(None, Some("xterm".to_string()), vec![]);
    let (reply, yielded) = exchange(&mut server, shell, Outcome::Spawned(Ok(())));
    assert_eq!(reply.response, Ok(Payload::Unit));
    assert_eq!(reply.descriptors.count(), 0);
    assert_eq!(yielded, Ok(Payload::Unit));
    assert!(server.has_child());

    let (reply, yielded) = exchange(
        &mut server,
        Client.wait(),
        Outcome::ChildExited(Ok(Some(0))),
    );
    assert_eq!(reply.response, Ok(Payload::ExitCode(Some(0))));
    assert_eq!(reply.descriptors.count(), 0);
    assert_eq!(yielded, Ok(Payload::ExitCode(Some(0))));
    assert!(!server.has_child());
}

#[test]
fn shell_without_auth() {
    let key = vec![9u8; 32];
    let mut server = Server::new(vec![key.clone()]);
    let shell = Client.shell(Some("id".to_string()), None, vec![]);
    let (reply, yielded) = exchange(&mut server, shell, Outcome::Spawned(Ok(())));
    assert_eq!(reply.response, Err("unauthenticated".to_string()));
    assert_eq!(reply.descriptors, Descriptors::Nothing);
    assert_eq!(
        yielded,
        Err(ClientError::Refused("unauthenticated".to_string()))
    );
    assert!(!server.has_child());

    // The monitor remains usable.
    let (reply, _) = exchange(
        &mut server,
        Client.sign([5u8; 32], key),
        Outcome::Signed(vec![1, 2, 3]),
    );
    assert_eq!(reply.response, Ok(Payload::Signature(vec![1, 2, 3])));
}

#[test]
fn sign_with_unknown_key() {
    let mut server = Server::new(vec![vec![1u8; 32], vec![2u8; 32]]);
    let sign = Client.sign([0x11; 32], vec![3u8; 32]);
    assert_eq!(
        deliver_request(&server, &sign),
        Step::Reply(Reply {
            response: Err("missing private key".to_string()),
            descriptors: Descriptors::Nothing
        })
    );
    let (_, yielded) = exchange(&mut server, sign, Outcome::Signed(vec![]));
    assert_eq!(
        yielded,
        Err(ClientError::Refused("missing private key".to_string()))
    );
}

#[test]
fn double_pty() {
    let mut server = Server::new(vec![]);
    let (first, yielded) = exchange(
        &mut server,
        Client.pty_req(80, 24, 0, 0, vec![]),
        Outcome::PtyOpened(Ok(())),
    );
    assert_eq!(first.response, Ok(Payload::Unit));
    assert_eq!(first.descriptors.count(), 1);
    assert_eq!(yielded, Ok(Payload::Unit));

    let (second, yielded) = exchange(
        &mut server,
        Client.pty_req(80, 24, 0, 0, vec![]),
        Outcome::PtyOpened(Ok(())),
    );
    assert_eq!(second.response, Err("already requests pty".to_string()));
    assert_eq!(second.descriptors.count(), 0);
    assert_eq!(
        yielded,
        Err(ClientError::Refused("already requests pty".to_string()))
    );
    assert!(server.has_pty());
}

#[test]
fn mismatched_pty_and_shell() {
    let mut server = Server::new(vec![]);
    exchange(
        &mut server,
        Client.verify_signature("alice".to_string(), [0; 32], "a".to_string(), vec![], vec![]),
        Outcome::SignatureVerified(Ok(Some(alice()))),
    );
    exchange(
        &mut server,
        Client.pty_req(80, 24, 0, 0, vec![]),
        Outcome::PtyOpened(Ok(())),
    );
    let (reply, yielded) = exchange(
        &mut server,
        Client.shell(None, None, vec![]),
        Outcome::Spawned(Ok(())),
    );
    assert_eq!(
        reply.response,
        Err("Mismatch between client and server PTY requests".to_string())
    );
    assert_eq!(reply.descriptors.count(), 0);
    match yielded {
        Err(ClientError::Refused(message)) => assert!(message.contains("PTY")),
        other => panic!("expected a refusal, got {:?}", other),
    }
    assert!(!server.has_child());
}

#[test]
fn shell_with_terminal_but_no_pty_is_a_mismatch() {
    let mut server = Server::new(vec![]);
    exchange(
        &mut server,
        Client.verify_signature("alice".to_string(), [0; 32], "a".to_string(), vec![], vec![]),
        Outcome::SignatureVerified(Ok(Some(alice()))),
    );
    let (reply, _) = exchange(
        &mut server,
        Client.shell(None, Some("xterm".to_string()), vec![]),
        Outcome::Spawned(Ok(())),
    );
    assert_eq!(
        reply.response,
        Err("Mismatch between client and server PTY requests".to_string())
    );
}

#[test]
fn client_driver_channel_open_failed() {
    let mut connection = ClientConnection::connect();
    let pending = connection.open_channel(5);
    assert_eq!(connection.channel_state(5), Some(ChannelState::Pending));

    let delivery = connection.deliver(
        5,
        &UpdateKind::OpenFailed {
            message: "open denied".to_string(),
        },
    );
    assert_eq!(
        delivery,
        Ok(Delivery::Refused {
            message: "open denied".to_string()
        })
    );
    // The channel is removed from the table.
    assert_eq!(connection.channel_state(5), None);

    let signal = match delivery {
        Ok(Delivery::Refused { message }) => Some(Err(message)),
        _ => unreachable!(),
    };
    assert_eq!(
        pending.wait_ready(signal),
        Err(Some("open denied".to_string()))
    );
}

#[test]
fn shell_without_terminal_hands_over_three_descriptors() {
    let mut server = Server::new(vec![]);
    exchange(
        &mut server,
        Client.verify_signature("alice".to_string(), [0; 32], "a".to_string(), vec![], vec![]),
        Outcome::SignatureVerified(Ok(Some(alice()))),
    );
    let (reply, yielded) = exchange(
        &mut server,
        Client.shell(Some("true".to_string()), None, vec![]),
        Outcome::Spawned(Ok(())),
    );
    assert_eq!(reply.descriptors, Descriptors::ChildStdio);
    assert_eq!(reply.descriptors.count(), 3);
    assert_eq!(yielded, Ok(Payload::Unit));
}
