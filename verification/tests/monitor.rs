//! The monitor on concrete values: every guard, every message, the plan for
//! the child, and what holds across calls.

use privsep_ssh::message::{
    CheckPubkey, Payload, PtyRequest, Request, ShellRequest, VerifySignature,
};
use privsep_ssh::monitor::{
    Descriptors, Effect, Outcome, Reply, Server, SpawnPlan, Step, UserIdentity,
    WindowSize,
};
use privsep_ssh::transport::{Ancillary, ProtocolError, Received};

fn user(name: &str, uid: u32) -> UserIdentity {
    UserIdentity {
        name: name.to_string(),
        uid,
        gid: uid + 1,
        home: format!("/home/{}", name),
        shell: "/bin/bash".to_string(),
    }
}

fn refusal(message: &str) -> Reply {
    Reply {
        response: Err(message.to_string()),
        descriptors: Descriptors::Nothing,
    }
}

fn verify_request() -> Request {
    Request::VerifySignature(VerifySignature {
        user: "bob".to_string(),
        session_identifier: [4; 32],
        pubkey_alg_name: "ssh-ed25519".to_string(),
        pubkey: vec![1, 2],
        signature: vec![3, 4],
    })
}

fn shell_request(pty_term: Option<&str>, command: Option<&str>) -> ShellRequest {
    ShellRequest {
        pty_term: pty_term.map(|t| t.to_string()),
        command: command.map(|c| c.to_string()),
        env: vec![],
    }
}

fn authenticated(name: &str, uid: u32) -> Server {
    let mut server = Server::new(vec![]);
    let reply = server.complete(Outcome::SignatureVerified(Ok(Some(user(name, uid)))));
    assert_eq!(reply.response, Ok(Payload::Flag(true)));
    server
}

fn clean(bytes: usize) -> Received {
    Received {
        bytes,
        payload_truncated: false,
        control_truncated: false,
        ancillary: vec![],
    }
}

#[test]
fn fresh_monitor_has_nothing() {
    let server = Server::new(vec![vec![1], vec![2]]);
    assert_eq!(server.authenticated_user(), None);
    assert!(!server.has_pty());
    assert!(!server.has_child());
}

#[test]
fn host_key_lookup_finds_the_first_match() {
    let server = Server::new(vec![vec![1, 1], vec![2, 2], vec![1, 1], vec![]]);
    assert_eq!(server.host_key(&vec![1, 1]), Some(0));
    assert_eq!(server.host_key(&vec![2, 2]), Some(1));
    assert_eq!(server.host_key(&vec![]), Some(3));
    assert_eq!(server.host_key(&vec![1]), None);
    assert_eq!(server.host_key(&vec![1, 1, 1]), None);
    assert_eq!(Server::new(vec![]).host_key(&vec![1, 1]), None);
}

#[test]
fn sign_names_the_key_and_the_hash() {
    let server = Server::new(vec![vec![8; 4], vec![9; 4]]);
    let step = server.receive_message(Request::Sign {
        hash: [0x5A; 32],
        public_key: vec![9; 4],
    });
    assert_eq!(
        step,
        Step::Perform(Effect::Sign {
            key: 1,
            hash: [0x5A; 32]
        })
    );
}

#[test]
fn check_public_key_is_always_put_to_the_policy() {
    let question = CheckPubkey {
        user: "bob".to_string(),
        session_identifier: [7; 32],
        pubkey_alg_name: "ssh-ed25519".to_string(),
        pubkey: vec![1, 2, 3],
    };
    let mut server = authenticated("alice", 1000);
    assert_eq!(
        server.receive_message(Request::CheckPublicKey(question.clone())),
        Step::Perform(Effect::CheckPublicKey(question))
    );
    assert_eq!(
        server.complete(Outcome::KeyChecked(Ok(true))),
        Reply {
            response: Ok(Payload::Flag(true)),
            descriptors: Descriptors::Nothing
        }
    );
    assert_eq!(
        server.complete(Outcome::KeyChecked(Ok(false))).response,
        Ok(Payload::Flag(false))
    );
    assert_eq!(
        server.complete(Outcome::KeyChecked(Err("no such user".to_string()))),
        refusal("no such user")
    );
    // A key check does not change who is authenticated.
    assert_eq!(server.authenticated_user(), Some(&user("alice", 1000)));
}

#[test]
fn verification_that_fails_authenticates_nobody() {
    let mut server = Server::new(vec![]);
    assert_eq!(
        server.complete(Outcome::SignatureVerified(Ok(None))).response,
        Ok(Payload::Flag(false))
    );
    assert_eq!(server.authenticated_user(), None);
    assert_eq!(
        server.complete(Outcome::SignatureVerified(Err("bad key".to_string()))),
        refusal("bad key")
    );
    assert_eq!(server.authenticated_user(), None);
    // A later verification can still succeed.
    assert_eq!(
        server
            .complete(Outcome::SignatureVerified(Ok(Some(user("bob", 7)))))
            .response,
        Ok(Payload::Flag(true))
    );
    assert_eq!(server.authenticated_user(), Some(&user("bob", 7)));
}

#[test]
fn user_is_authenticated_at_most_once() {
    let mut server = authenticated("alice", 1000);
    // The request is refused without consulting the policy.
    assert_eq!(
        server.receive_message(verify_request()),
        Step::Reply(refusal("user already authenticated"))
    );
    // An outcome handed back all the same changes nothing.
    assert_eq!(
        server.complete(Outcome::SignatureVerified(Ok(Some(user("mallory", 0))))),
        refusal("user already authenticated")
    );
    assert_eq!(server.authenticated_user(), Some(&user("alice", 1000)));
    assert_eq!(
        server.complete(Outcome::SignatureVerified(Ok(None))),
        refusal("user already authenticated")
    );
    // No other outcome touches the user either.
    server.complete(Outcome::PtyOpened(Ok(())));
    server.complete(Outcome::Spawned(Ok(())));
    server.complete(Outcome::ChildExited(Ok(None)));
    server.complete(Outcome::Signed(vec![]));
    assert_eq!(server.authenticated_user(), Some(&user("alice", 1000)));
}

#[test]
fn shell_needs_a_verified_user() {
    let mut server = Server::new(vec![]);
    assert_eq!(
        server.receive_message(Request::Shell(shell_request(None, None))),
        Step::Reply(refusal("unauthenticated"))
    );
    // Even an outcome that claims a child was started is refused.
    assert_eq!(
        server.complete(Outcome::Spawned(Ok(()))),
        refusal("unauthenticated")
    );
    assert!(!server.has_child());
    // A failed verification does not help.
    server.complete(Outcome::SignatureVerified(Ok(None)));
    assert_eq!(
        server.complete(Outcome::Spawned(Ok(()))),
        refusal("unauthenticated")
    );
    // A successful one does.
    server.complete(Outcome::SignatureVerified(Ok(Some(user("alice", 1)))));
    assert_eq!(
        server.complete(Outcome::Spawned(Ok(()))).response,
        Ok(Payload::Unit)
    );
    assert!(server.has_child());
}

#[test]
fn shell_runs_under_the_ids_of_the_verified_user() {
    let server = authenticated("alice", 1000);
    let request = ShellRequest {
        pty_term: None,
        command: Some("id".to_string()),
        env: vec![
            ("USER".to_string(), "root".to_string()),
            ("HOME".to_string(), "/root".to_string()),
        ],
    };
    let step = server.receive_message(Request::Shell(request));
    // The program, the directory and the ids are the user's. The variables
    // of the request are set last, in their order.
    assert_eq!(
        step,
        Step::Perform(Effect::Spawn(SpawnPlan {
            program: "/bin/bash".to_string(),
            args: vec!["-c".to_string(), "id".to_string()],
            env: vec![
                ("USER".to_string(), "alice".to_string()),
                ("USER".to_string(), "root".to_string()),
                ("HOME".to_string(), "/root".to_string()),
            ],
            current_dir: "/home/alice".to_string(),
            uid: 1000,
            gid: 1001,
            terminal: false,
        }))
    );
}

#[test]
fn spawn_plan_with_terminal() {
    let mut server = authenticated("alice", 1000);
    server.complete(Outcome::PtyOpened(Ok(())));
    let request = ShellRequest {
        pty_term: Some("xterm-256color".to_string()),
        command: None,
        env: vec![("LANG".to_string(), "C".to_string())],
    };
    let step = server.receive_message(Request::Shell(request));
    assert_eq!(
        step,
        Step::Perform(Effect::Spawn(SpawnPlan {
            program: "/bin/bash".to_string(),
            args: vec![],
            env: vec![
                ("TERM".to_string(), "xterm-256color".to_string()),
                ("USER".to_string(), "alice".to_string()),
                ("LANG".to_string(), "C".to_string()),
            ],
            current_dir: "/home/alice".to_string(),
            uid: 1000,
            gid: 1001,
            terminal: true,
        }))
    );
}

#[test]
fn shell_method_checks_the_terminal_agreement() {
    let mut server = Server::new(vec![]);
    let alice = user("alice", 1000);
    assert!(server.shell(&alice, shell_request(None, None)).is_ok());
    assert_eq!(
        server.shell(&alice, shell_request(Some("vt100"), None)),
        Err("Mismatch between client and server PTY requests".to_string())
    );
    server.complete(Outcome::PtyOpened(Ok(())));
    assert_eq!(
        server.shell(&alice, shell_request(None, Some("ls"))),
        Err("Mismatch between client and server PTY requests".to_string())
    );
    let plan = server
        .shell(&alice, shell_request(Some("vt100"), Some("ls")))
        .unwrap();
    assert!(plan.terminal);
    assert_eq!(plan.args, vec!["-c".to_string(), "ls".to_string()]);
    assert_eq!(plan.env[0], ("TERM".to_string(), "vt100".to_string()));
}

#[test]
fn only_one_child_at_a_time() {
    let mut server = authenticated("alice", 1000);
    assert_eq!(
        server.complete(Outcome::Spawned(Ok(()))).descriptors,
        Descriptors::ChildStdio
    );
    assert_eq!(
        server.receive_message(Request::Shell(shell_request(None, None))),
        Step::Reply(refusal("process already running"))
    );
    assert_eq!(
        server.complete(Outcome::Spawned(Ok(()))),
        refusal("process already running")
    );
    // After the child is reaped, another one may be started.
    server.complete(Outcome::ChildExited(Ok(Some(3))));
    assert!(matches!(
        server.receive_message(Request::Shell(shell_request(None, None))),
        Step::Perform(Effect::Spawn(_))
    ));
}

#[test]
fn already_running_is_reported_before_unauthenticated() {
    let mut server = authenticated("alice", 1000);
    server.complete(Outcome::Spawned(Ok(())));
    assert_eq!(
        server.receive_message(Request::Shell(shell_request(Some("x"), None))),
        Step::Reply(refusal("process already running"))
    );
}

#[test]
fn failed_spawn_starts_nothing() {
    let mut server = authenticated("alice", 1000);
    assert_eq!(
        server.complete(Outcome::Spawned(Err("No such file or directory".to_string()))),
        refusal("No such file or directory")
    );
    assert!(!server.has_child());
}

#[test]
fn wait_after_wait_finds_no_child() {
    let mut server = authenticated("alice", 1000);
    assert_eq!(
        server.receive_message(Request::Wait),
        Step::Reply(refusal("no child running"))
    );
    server.complete(Outcome::Spawned(Ok(())));
    assert_eq!(
        server.receive_message(Request::Wait),
        Step::Perform(Effect::AwaitChild)
    );
    assert_eq!(
        server.complete(Outcome::ChildExited(Ok(Some(0)))).response,
        Ok(Payload::ExitCode(Some(0)))
    );
    assert_eq!(
        server.receive_message(Request::Wait),
        Step::Reply(refusal("no child running"))
    );
    assert_eq!(
        server.complete(Outcome::ChildExited(Ok(Some(0)))),
        refusal("no child running")
    );
}

#[test]
fn wait_that_fails_still_forgets_the_child() {
    let mut server = authenticated("alice", 1000);
    server.complete(Outcome::Spawned(Ok(())));
    assert_eq!(
        server.complete(Outcome::ChildExited(Err("interrupted".to_string()))),
        refusal("interrupted")
    );
    assert!(!server.has_child());
}

#[test]
fn child_killed_by_a_signal_has_no_exit_code() {
    let mut server = authenticated("alice", 1000);
    server.complete(Outcome::Spawned(Ok(())));
    assert_eq!(
        server.complete(Outcome::ChildExited(Ok(None))).response,
        Ok(Payload::ExitCode(None))
    );
}

#[test]
fn pty_after_pty_is_refused() {
    let mut server = Server::new(vec![]);
    let request = PtyRequest {
        height_rows: 24,
        width_chars: 80,
        width_px: 640,
        height_px: 480,
        term_modes: vec![1, 0, 0, 0, 3],
    };
    assert_eq!(
        server.receive_message(Request::PtyReq(request.clone())),
        Step::Perform(Effect::OpenPty {
            size: WindowSize {
                rows: 24,
                cols: 80,
                xpixel: 640,
                ypixel: 480
            },
            term_modes: vec![1, 0, 0, 0, 3],
        })
    );
    assert_eq!(
        server.complete(Outcome::PtyOpened(Ok(()))),
        Reply {
            response: Ok(Payload::Unit),
            descriptors: Descriptors::PtyController
        }
    );
    assert_eq!(
        server.receive_message(Request::PtyReq(request)),
        Step::Reply(refusal("already requests pty"))
    );
    assert_eq!(
        server.complete(Outcome::PtyOpened(Ok(()))),
        refusal("already requests pty")
    );
    // It stays refused whatever happens in between.
    server.complete(Outcome::SignatureVerified(Ok(Some(user("alice", 1)))));
    server.complete(Outcome::Spawned(Ok(())));
    server.complete(Outcome::ChildExited(Ok(Some(0))));
    assert_eq!(
        server.complete(Outcome::PtyOpened(Ok(()))),
        refusal("already requests pty")
    );
}

#[test]
fn failed_pty_allocation_leaves_no_pty() {
    let mut server = Server::new(vec![]);
    assert_eq!(
        server.complete(Outcome::PtyOpened(Err("out of ptys".to_string()))),
        refusal("out of ptys")
    );
    assert!(!server.has_pty());
    assert_eq!(
        server.complete(Outcome::PtyOpened(Ok(()))).descriptors.count(),
        1
    );
}

#[test]
fn window_size_keeps_the_low_sixteen_bits() {
    let server = Server::new(vec![]);
    let step = server.receive_message(Request::PtyReq(PtyRequest {
        height_rows: 65_536,
        width_chars: 70_000,
        width_px: 65_535,
        height_px: u32::MAX,
        term_modes: vec![],
    }));
    assert_eq!(
        step,
        Step::Perform(Effect::OpenPty {
            size: WindowSize {
                rows: 0,
                cols: 4_464,
                xpixel: 65_535,
                ypixel: 65_535
            },
            term_modes: vec![],
        })
    );
}

#[test]
fn descriptors_follow_the_operation() {
    assert_eq!(Descriptors::Nothing.count(), 0);
    assert_eq!(Descriptors::PtyController.count(), 1);
    assert_eq!(Descriptors::ChildStdio.count(), 3);

    // With a terminal the child's streams are the terminal: no descriptors.
    let mut server = authenticated("alice", 1000);
    server.complete(Outcome::PtyOpened(Ok(())));
    assert_eq!(
        server.complete(Outcome::Spawned(Ok(()))),
        Reply {
            response: Ok(Payload::Unit),
            descriptors: Descriptors::Nothing
        }
    );
    // No other reply carries any.
    assert_eq!(
        server.complete(Outcome::Signed(vec![1])).descriptors,
        Descriptors::Nothing
    );
    assert_eq!(
        server.complete(Outcome::KeyChecked(Ok(true))).descriptors,
        Descriptors::Nothing
    );
    assert_eq!(
        server.complete(Outcome::ChildExited(Ok(Some(1)))).descriptors,
        Descriptors::Nothing
    );
}

#[test]
fn process_refuses_descriptors_in_a_request() {
    let server = Server::new(vec![]);
    let report = Received {
        bytes: 1,
        payload_truncated: false,
        control_truncated: false,
        ancillary: vec![Ancillary::Rights(1)],
    };
    assert_eq!(
        server.process(&[5u8], &report),
        Err(ProtocolError::DescriptorCount {
            expected: 0,
            received: 1
        })
    );
}

#[test]
fn process_refuses_what_is_no_request() {
    let server = Server::new(vec![]);
    assert_eq!(
        server.process(&[6u8], &clean(1)),
        Err(ProtocolError::Malformed)
    );
    assert_eq!(
        server.process(&[], &clean(0)),
        Err(ProtocolError::Malformed)
    );
    let truncated = Received {
        bytes: 1,
        payload_truncated: true,
        control_truncated: false,
        ancillary: vec![],
    };
    assert_eq!(
        server.process(&[5u8], &truncated),
        Err(ProtocolError::PayloadTooLarge)
    );
}

#[test]
fn process_reads_only_the_bytes_that_arrived() {
    let server = Server::new(vec![]);
    // The buffer holds a Wait request followed by stale bytes.
    let buffer = [5u8, 0xFF, 0xFF, 0xFF];
    assert_eq!(
        server.process(&buffer, &clean(1)),
        Ok(Step::Reply(refusal("no child running")))
    );
    // With nothing received, the same buffer yields no request.
    assert_eq!(
        server.process(&buffer, &clean(0)),
        Err(ProtocolError::Malformed)
    );
}

#[test]
fn respond_encodes_the_reply() {
    assert_eq!(
        Server::new(vec![]).respond(&Reply {
            response: Ok(Payload::Flag(true)),
            descriptors: Descriptors::Nothing
        }),
        Ok(vec![0, 1])
    );
    assert_eq!(
        Server::new(vec![]).respond(&refusal("no")),
        Ok(vec![1, 2, b'n', b'o'])
    );
    assert_eq!(
        Server::new(vec![]).respond(&Reply {
            response: Ok(Payload::Unit),
            descriptors: Descriptors::ChildStdio
        }),
        Ok(vec![0])
    );
}

#[test]
fn respond_refuses_a_reply_that_does_not_fit() {
    // 1 byte for the tag, 2 for the length, 1021 for the text: 1024 bytes.
    let fits = refusal(&"x".repeat(1021));
    assert_eq!(Server::new(vec![]).respond(&fits).map(|d| d.len()), Ok(1024));
    let too_long = refusal(&"x".repeat(1022));
    assert_eq!(
        Server::new(vec![]).respond(&too_long),
        Err(ProtocolError::PayloadTooLarge)
    );
}
