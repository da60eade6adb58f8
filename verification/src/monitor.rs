//! The monitor: the privileged side of the control channel.
//!
//! The monitor holds the host keys, remembers who authenticated, and owns the
//! pseudo-terminal and the child process of one connection. It never touches
//! a socket or a process itself. For each request it either replies at once
//! or names the one effect that the caller has to carry out; the outcome of
//! that effect, handed back, becomes the reply.
//!
//! The state only ever changes when an outcome is handed back, and every
//! guard is checked again at that point: no order of calls can authenticate
//! twice, run a shell for nobody, or hand out more descriptors than the
//! operation allows.

use crate::message::{
    response_view, CheckPubkey, CheckPubkeyView, Payload, PayloadView, PtyRequestView, Request,
    RequestView, ShellRequest, ShellRequestView, VerifySignature, VerifySignatureView,
};
use crate::codec::{encode_response, response_wire};
use crate::transport::{
    check_outgoing, outgoing_verdict, receive_request, request_received, ProtocolError, Received,
};
use crate::wire::pair_texts;
use vstd::prelude::*;

verus! {

/// A system user, as the user directory describes it.
#[derive(Clone, Debug, PartialEq, Eq)]
pub struct UserIdentity {
    pub name: String,
    pub uid: u32,
    pub gid: u32,
    pub home: String,
    pub shell: String,
}

/// View of a [`UserIdentity`].
pub struct UserIdentityView {
    pub name: Seq<char>,
    pub uid: u32,
    pub gid: u32,
    pub home: Seq<char>,
    pub shell: Seq<char>,
}

/// The file descriptors that travel with a reply.
#[derive(Clone, Copy, Debug, PartialEq, Eq, Structural)]
pub enum Descriptors {
    /// None.
    Nothing,
    /// The controller end of the pseudo-terminal.
    PtyController,
    /// The parent's ends of the child's standard input, output and error, in
    /// this order.
    ChildStdio,
}

/// What the monitor sends back for one request.
#[derive(Debug, PartialEq, Eq)]
pub struct Reply {
    pub response: Result<Payload, String>,
    pub descriptors: Descriptors,
}

/// View of a [`Reply`].
pub struct ReplyView {
    pub response: Result<PayloadView, Seq<char>>,
    pub descriptors: Descriptors,
}

/// The size of a terminal window.
#[derive(Clone, Copy, Debug, PartialEq, Eq, Structural)]
pub struct WindowSize {
    pub rows: u16,
    pub cols: u16,
    pub xpixel: u16,
    pub ypixel: u16,
}

/// How to start the child process.
#[derive(Debug, PartialEq, Eq)]
pub struct SpawnPlan {
    /// The program to run: the user's shell.
    pub program: String,
    /// Its arguments.
    pub args: Vec<String>,
    /// Its whole environment, in the order in which the variables are set: a
    /// later entry for the same name replaces an earlier one.
    pub env: Vec<(String, String)>,
    /// Its working directory: the user's home.
    pub current_dir: String,
    /// Its user id.
    pub uid: u32,
    /// Its primary group id.
    pub gid: u32,
    /// Whether it runs in a new session on the pseudo-terminal (`true`) or
    /// on three pipes (`false`).
    pub terminal: bool,
}

/// View of a [`SpawnPlan`].
pub struct SpawnPlanView {
    pub program: Seq<char>,
    pub args: Seq<Seq<char>>,
    pub env: Seq<(Seq<char>, Seq<char>)>,
    pub current_dir: Seq<char>,
    pub uid: u32,
    pub gid: u32,
    pub terminal: bool,
}

/// The one thing that the caller has to carry out for a request.
#[derive(Debug, PartialEq, Eq)]
pub enum Effect {
    /// Sign the hash with the private half of the host key at this index.
    Sign { key: usize, hash: [u8; 32] },
    /// Put the question to the authorization policy.
    CheckPublicKey(CheckPubkey),
    /// Have the authorization policy verify the signature.
    VerifySignature(VerifySignature),
    /// Allocate a pseudo-terminal of this size and with these modes.
    OpenPty { size: WindowSize, term_modes: Vec<u8> },
    /// Start the child.
    Spawn(SpawnPlan),
    /// Wait for the child to exit.
    AwaitChild,
}

/// View of an [`Effect`].
pub enum EffectView {
    Sign { key: usize, hash: Seq<u8> },
    CheckPublicKey(CheckPubkeyView),
    VerifySignature(VerifySignatureView),
    OpenPty { size: WindowSize, term_modes: Seq<u8> },
    Spawn(SpawnPlanView),
    AwaitChild,
}

/// What to do with a request: reply at once, or carry out an effect first.
#[derive(Debug, PartialEq, Eq)]
pub enum Step {
    Reply(Reply),
    Perform(Effect),
}

/// View of a [`Step`].
pub enum StepView {
    Reply(ReplyView),
    Perform(EffectView),
}

/// How an effect ended. An `Err` holds the failure as text.
#[derive(Debug, PartialEq, Eq)]
pub enum Outcome {
    /// The signature over the hash.
    Signed(Vec<u8>),
    /// The policy's answer to a key check.
    KeyChecked(Result<bool, String>),
    /// The policy's verdict on a signature: the user it belongs to, or
    /// `None` when it does not verify.
    SignatureVerified(Result<Option<UserIdentity>, String>),
    /// The pseudo-terminal was allocated.
    PtyOpened(Result<(), String>),
    /// The child was started.
    Spawned(Result<(), String>),
    /// The child exited, with this code if it has one.
    ChildExited(Result<Option<i32>, String>),
}

/// View of an [`Outcome`].
pub enum OutcomeView {
    Signed(Seq<u8>),
    KeyChecked(Result<bool, Seq<char>>),
    SignatureVerified(Result<Option<UserIdentityView>, Seq<char>>),
    PtyOpened(Result<(), Seq<char>>),
    Spawned(Result<(), Seq<char>>),
    ChildExited(Result<Option<i32>, Seq<char>>),
}

/// The state of the monitor for one connection.
#[derive(Debug)]
pub struct Server {
    host_keys: Vec<Vec<u8>>,
    authenticated_user: Option<UserIdentity>,
    pty_user: bool,
    shell_process: bool,
}

/// View of a [`Server`].
pub struct ServerView {
    /// The public halves of the loaded host keys.
    pub host_keys: Seq<Seq<u8>>,
    /// The user who authenticated, once one has.
    pub authenticated_user: Option<UserIdentityView>,
    /// Whether the monitor holds the subordinate end of a pseudo-terminal.
    pub pty_user: bool,
    /// Whether a child is running.
    pub shell_process: bool,
}

impl View for UserIdentity {
    type V = UserIdentityView;

    open spec fn view(&self) -> UserIdentityView {
        UserIdentityView {
            name: self.name@,
            uid: self.uid,
            gid: self.gid,
            home: self.home@,
            shell: self.shell@,
        }
    }
}

impl View for Reply {
    type V = ReplyView;

    open spec fn view(&self) -> ReplyView {
        ReplyView { response: response_view(self.response), descriptors: self.descriptors }
    }
}

/// View of a list of strings.
pub open spec fn texts_view(v: Seq<String>) -> Seq<Seq<char>> {
    Seq::new(v.len(), |i: int| v[i]@)
}

/// View of a list of byte strings.
pub open spec fn blobs_view(v: Seq<Vec<u8>>) -> Seq<Seq<u8>> {
    Seq::new(v.len(), |i: int| v[i]@)
}

impl View for SpawnPlan {
    type V = SpawnPlanView;

    open spec fn view(&self) -> SpawnPlanView {
        SpawnPlanView {
            program: self.program@,
            args: texts_view(self.args@),
            env: pair_texts(self.env@),
            current_dir: self.current_dir@,
            uid: self.uid,
            gid: self.gid,
            terminal: self.terminal,
        }
    }
}

impl View for Effect {
    type V = EffectView;

    open spec fn view(&self) -> EffectView {
        match *self {
            Effect::Sign { key, hash } => EffectView::Sign { key, hash: hash@ },
            Effect::CheckPublicKey(q) => EffectView::CheckPublicKey(q@),
            Effect::VerifySignature(q) => EffectView::VerifySignature(q@),
            Effect::OpenPty { size, term_modes } => EffectView::OpenPty {
                size,
                term_modes: term_modes@,
            },
            Effect::Spawn(plan) => EffectView::Spawn(plan@),
            Effect::AwaitChild => EffectView::AwaitChild,
        }
    }
}

impl View for Step {
    type V = StepView;

    open spec fn view(&self) -> StepView {
        match *self {
            Step::Reply(reply) => StepView::Reply(reply@),
            Step::Perform(effect) => StepView::Perform(effect@),
        }
    }
}

impl View for Outcome {
    type V = OutcomeView;

    open spec fn view(&self) -> OutcomeView {
        match *self {
            Outcome::Signed(signature) => OutcomeView::Signed(signature@),
            Outcome::KeyChecked(Ok(allowed)) => OutcomeView::KeyChecked(Ok(allowed)),
            Outcome::KeyChecked(Err(failure)) => OutcomeView::KeyChecked(Err(failure@)),
            Outcome::SignatureVerified(Ok(Some(user))) => OutcomeView::SignatureVerified(
                Ok(Some(user@)),
            ),
            Outcome::SignatureVerified(Ok(None)) => OutcomeView::SignatureVerified(Ok(None)),
            Outcome::SignatureVerified(Err(failure)) => OutcomeView::SignatureVerified(
                Err(failure@),
            ),
            Outcome::PtyOpened(Ok(())) => OutcomeView::PtyOpened(Ok(())),
            Outcome::PtyOpened(Err(failure)) => OutcomeView::PtyOpened(Err(failure@)),
            Outcome::Spawned(Ok(())) => OutcomeView::Spawned(Ok(())),
            Outcome::Spawned(Err(failure)) => OutcomeView::Spawned(Err(failure@)),
            Outcome::ChildExited(Ok(code)) => OutcomeView::ChildExited(Ok(code)),
            Outcome::ChildExited(Err(failure)) => OutcomeView::ChildExited(Err(failure@)),
        }
    }
}

impl View for Server {
    type V = ServerView;

    closed spec fn view(&self) -> ServerView {
        ServerView {
            host_keys: blobs_view(self.host_keys@),
            authenticated_user: match self.authenticated_user {
                Some(user) => Some(user@),
                None => None,
            },
            pty_user: self.pty_user,
            shell_process: self.shell_process,
        }
    }
}

impl Descriptors {
    /// How many descriptors these are.
    pub open spec fn spec_count(self) -> nat {
        match self {
            Descriptors::Nothing => 0,
            Descriptors::PtyController => 1,
            Descriptors::ChildStdio => 3,
        }
    }

    /// How many descriptors these are.
    pub fn count(self) -> (n: usize)
        ensures
            n == self.spec_count(),
    {
        match self {
            Descriptors::Nothing => 0,
            Descriptors::PtyController => 1,
            Descriptors::ChildStdio => 3,
        }
    }
}

/// The reply that refuses a request with a message.
pub open spec fn refusal(message: Seq<char>) -> ReplyView {
    ReplyView { response: Err(message), descriptors: Descriptors::Nothing }
}

/// The reply that answers a request with a value and no descriptors.
pub open spec fn answer(payload: PayloadView) -> ReplyView {
    ReplyView { response: Ok(payload), descriptors: Descriptors::Nothing }
}

/// The state of a monitor that has served nothing yet.
pub open spec fn fresh(host_keys: Seq<Seq<u8>>) -> ServerView {
    ServerView { host_keys, authenticated_user: None, pty_user: false, shell_process: false }
}

/// Whether `index` is the first host key equal to `wanted`.
pub open spec fn is_first_key(keys: Seq<Seq<u8>>, wanted: Seq<u8>, index: int) -> bool {
    &&& 0 <= index < keys.len()
    &&& keys[index] == wanted
    &&& forall|j: int| 0 <= j < index ==> keys[j] != wanted
}

/// The index of the first host key equal to `wanted`, if there is one.
pub open spec fn find_key(keys: Seq<Seq<u8>>, wanted: Seq<u8>) -> Option<int> {
    if exists|i: int| is_first_key(keys, wanted, i) {
        Some(choose|i: int| is_first_key(keys, wanted, i))
    } else {
        None
    }
}

/// The low sixteen bits of a number.
pub open spec fn low16(x: u32) -> u16 {
    (x % 0x1_0000) as u16
}

/// The window size that a request for a pseudo-terminal asks for. Each
/// dimension is cut to its low sixteen bits.
pub open spec fn window_size(request: PtyRequestView) -> WindowSize {
    WindowSize {
        rows: low16(request.height_rows),
        cols: low16(request.width_chars),
        xpixel: low16(request.width_px),
        ypixel: low16(request.height_px),
    }
}

/// How the child is started for `user`.
///
/// The program is the user's shell, with `-c` and the command if there is
/// one. The environment holds nothing but `TERM` (with a pseudo-terminal),
/// then `USER`, then the variables of the request, set in this order: where
/// a name occurs twice, the later entry counts. The working directory and
/// the ids are the user's, whatever the request holds.
pub open spec fn spawn_plan(user: UserIdentityView, request: ShellRequestView) -> SpawnPlanView {
    SpawnPlanView {
        program: user.shell,
        args: match request.command {
            Some(command) => seq!["-c"@, command],
            None => Seq::empty(),
        },
        env: (match request.pty_term {
            Some(term) => seq![("TERM"@, term)],
            None => Seq::empty(),
        }) + seq![("USER"@, user.name)] + request.env,
        current_dir: user.home,
        uid: user.uid,
        gid: user.gid,
        terminal: request.pty_term is Some,
    }
}

/// What the monitor does with a request in state `s`.
///
/// A request whose precondition fails is refused at once, with the message
/// that names the failure. Any other request names its effect.
pub open spec fn plan(s: ServerView, request: RequestView) -> StepView {
    match request {
        RequestView::Sign { hash, public_key } => match find_key(s.host_keys, public_key) {
            Some(index) => StepView::Perform(EffectView::Sign { key: index as usize, hash }),
            None => StepView::Reply(refusal("missing private key"@)),
        },
        RequestView::CheckPublicKey(question) => StepView::Perform(
            EffectView::CheckPublicKey(question),
        ),
        RequestView::VerifySignature(question) => if s.authenticated_user is Some {
            StepView::Reply(refusal("user already authenticated"@))
        } else {
            StepView::Perform(EffectView::VerifySignature(question))
        },
        RequestView::PtyReq(request) => if s.pty_user {
            StepView::Reply(refusal("already requests pty"@))
        } else {
            StepView::Perform(
                EffectView::OpenPty {
                    size: window_size(request),
                    term_modes: request.term_modes,
                },
            )
        },
        RequestView::Shell(request) => if s.shell_process {
            StepView::Reply(refusal("process already running"@))
        } else {
            match s.authenticated_user {
                None => StepView::Reply(refusal("unauthenticated"@)),
                Some(user) => if (request.pty_term is Some) != s.pty_user {
                    StepView::Reply(refusal("Mismatch between client and server PTY requests"@))
                } else {
                    StepView::Perform(EffectView::Spawn(spawn_plan(user, request)))
                },
            }
        },
        RequestView::Wait => if s.shell_process {
            StepView::Perform(EffectView::AwaitChild)
        } else {
            StepView::Reply(refusal("no child running"@))
        },
    }
}

/// The state after, and the reply to, the outcome of an effect in state `s`.
///
/// Each guard of the request is checked again, so that an outcome which the
/// state does not allow changes nothing and is refused. A failure of the
/// effect is passed on as the refusal.
pub open spec fn settle(s: ServerView, outcome: OutcomeView) -> (ServerView, ReplyView) {
    match outcome {
        OutcomeView::Signed(signature) => (s, answer(PayloadView::Signature(signature))),
        OutcomeView::KeyChecked(Ok(allowed)) => (s, answer(PayloadView::Flag(allowed))),
        OutcomeView::KeyChecked(Err(failure)) => (s, refusal(failure)),
        OutcomeView::SignatureVerified(verdict) => if s.authenticated_user is Some {
            (s, refusal("user already authenticated"@))
        } else {
            match verdict {
                Ok(Some(user)) => (
                    ServerView { authenticated_user: Some(user), ..s },
                    answer(PayloadView::Flag(true)),
                ),
                Ok(None) => (s, answer(PayloadView::Flag(false))),
                Err(failure) => (s, refusal(failure)),
            }
        },
        OutcomeView::PtyOpened(opened) => if s.pty_user {
            (s, refusal("already requests pty"@))
        } else {
            match opened {
                Ok(()) => (
                    ServerView { pty_user: true, ..s },
                    ReplyView {
                        response: Ok(PayloadView::Unit),
                        descriptors: Descriptors::PtyController,
                    },
                ),
                Err(failure) => (s, refusal(failure)),
            }
        },
        OutcomeView::Spawned(spawned) => if s.shell_process {
            (s, refusal("process already running"@))
        } else if s.authenticated_user is None {
            (s, refusal("unauthenticated"@))
        } else {
            match spawned {
                Ok(()) => (
                    ServerView { shell_process: true, ..s },
                    ReplyView {
                        response: Ok(PayloadView::Unit),
                        descriptors: if s.pty_user {
                            Descriptors::Nothing
                        } else {
                            Descriptors::ChildStdio
                        },
                    },
                ),
                Err(failure) => (s, refusal(failure)),
            }
        },
        OutcomeView::ChildExited(exited) => if !s.shell_process {
            (s, refusal("no child running"@))
        } else {
            (
                ServerView { shell_process: false, ..s },
                match exited {
                    Ok(code) => answer(PayloadView::ExitCode(code)),
                    Err(failure) => refusal(failure),
                },
            )
        },
    }
}

/// What the monitor does with a received datagram: it stops when the
/// datagram yields no request or brings descriptors, and otherwise deals
/// with the request.
pub open spec fn processed(s: ServerView, data: Seq<u8>, r: Received) -> Result<
    StepView,
    ProtocolError,
> {
    match request_received(data, r) {
        Err(e) => Err(e),
        Ok((request, count)) => if count > 0 {
            Err(ProtocolError::DescriptorCount { expected: 0, received: count })
        } else {
            Ok(plan(s, request))
        },
    }
}

/// The payload of the datagram that carries a reply, or the rule of the
/// transport that the reply breaks.
pub open spec fn reply_datagram(reply: ReplyView) -> Result<Seq<u8>, ProtocolError> {
    match outgoing_verdict(response_wire(reply.response).len(), reply.descriptors.spec_count()) {
        Ok(()) => Ok(response_wire(reply.response)),
        Err(e) => Err(e),
    }
}

/// Whether two byte strings are equal.
fn same_bytes(a: &Vec<u8>, b: &Vec<u8>) -> (same: bool)
    ensures
        same == (a@ == b@),
{
    if a.len() != b.len() {
        return false;
    }
    let mut i: usize = 0;
    while i < a.len()
        invariant
            i <= a.len(),
            a.len() == b.len(),
            forall|j: int| 0 <= j < i ==> a@[j] == b@[j],
        decreases a.len() - i,
    {
        if a[i] != b[i] {
            return false;
        }
        i = i + 1;
    }
    proof {
        assert(a@ =~= b@);
    }
    true
}

/// The low sixteen bits of a number.
fn low16_of(x: u32) -> (low: u16)
    ensures
        low == low16(x),
{
    (x % 0x1_0000) as u16
}

/// The reply that refuses a request with a message.
fn refuse(message: String) -> (reply: Reply)
    ensures
        reply@ == refusal(message@),
{
    Reply { response: Err(message), descriptors: Descriptors::Nothing }
}

/// The reply that refuses a request with a fixed message.
fn refuse_with(message: &str) -> (reply: Reply)
    ensures
        reply@ == refusal(message@),
{
    refuse(message.to_owned())
}

/// The reply that answers a request with a value and no descriptors.
fn answer_with(payload: Payload) -> (reply: Reply)
    ensures
        reply@ == answer(payload@),
{
    Reply { response: Ok(payload), descriptors: Descriptors::Nothing }
}

impl Server {
    /// A monitor that holds these host keys, given by their public halves,
    /// and has served nothing yet.
    pub fn new(host_keys: Vec<Vec<u8>>) -> (server: Server)
        ensures
            server@ == fresh(blobs_view(host_keys@)),
    {
        Server { host_keys, authenticated_user: None, pty_user: false, shell_process: false }
    }

    /// The user who authenticated, once one has.
    pub fn authenticated_user(&self) -> (user: Option<&UserIdentity>)
        ensures
            match user {
                Some(user) => self@.authenticated_user == Some(user@),
                None => self@.authenticated_user is None,
            },
    {
        self.authenticated_user.as_ref()
    }

    /// Whether the monitor holds the subordinate end of a pseudo-terminal.
    pub fn has_pty(&self) -> (held: bool)
        ensures
            held == self@.pty_user,
    {
        self.pty_user
    }

    /// Whether a child is running.
    pub fn has_child(&self) -> (running: bool)
        ensures
            running == self@.shell_process,
    {
        self.shell_process
    }

    /// The index of the first host key whose public half is `wanted`.
    pub fn host_key(&self, wanted: &Vec<u8>) -> (found: Option<usize>)
        ensures
            match found {
                Some(index) => find_key(self@.host_keys, wanted@) == Some(index as int),
                None => find_key(self@.host_keys, wanted@) is None,
            },
    {
        let ghost keys = self@.host_keys;
        let mut i: usize = 0;
        while i < self.host_keys.len()
            invariant
                i <= self.host_keys.len(),
                keys == blobs_view(self.host_keys@),
                forall|j: int| 0 <= j < i ==> keys[j] != wanted@,
            decreases self.host_keys.len() - i,
        {
            if same_bytes(&self.host_keys[i], wanted) {
                proof {
                    assert(is_first_key(keys, wanted@, i as int));
                    let chosen = choose|k: int| is_first_key(keys, wanted@, k);
                    assert(is_first_key(keys, wanted@, chosen));
                    assert(chosen == i);
                }
                return Some(i);
            }
            i = i + 1;
        }
        proof {
            assert forall|k: int| !is_first_key(keys, wanted@, k) by {}
        }
        None
    }

    /// Plans the child for `user`, or refuses when the request and the
    /// monitor disagree on whether a pseudo-terminal is in use.
    pub fn shell(&self, user: &UserIdentity, request: ShellRequest) -> (planned: Result<
        SpawnPlan,
        String,
    >)
        ensures
            match planned {
                Ok(plan) => (request@.pty_term is Some) == self@.pty_user && plan@ == spawn_plan(
                    user@,
                    request@,
                ),
                Err(message) => (request@.pty_term is Some) != self@.pty_user && message@
                    == "Mismatch between client and server PTY requests"@,
            },
    {
        let ShellRequest { pty_term, command, env: mut variables } = request;
        if pty_term.is_some() != self.pty_user {
            return Err("Mismatch between client and server PTY requests".to_owned());
        }
        let mut args: Vec<String> = Vec::new();
        if let Some(command) = command {
            args.push("-c".to_owned());
            args.push(command);
        }
        let mut env: Vec<(String, String)> = Vec::new();
        let terminal = pty_term.is_some();
        if let Some(term) = pty_term {
            env.push(("TERM".to_owned(), term));
        }
        env.push(("USER".to_owned(), user.name.clone()));
        env.append(&mut variables);
        let plan = SpawnPlan {
            program: user.shell.clone(),
            args,
            env,
            current_dir: user.home.clone(),
            uid: user.uid,
            gid: user.gid,
            terminal,
        };
        proof {
            assert(plan@.args =~= spawn_plan(user@, request@).args);
            assert(plan@.env =~= spawn_plan(user@, request@).env);
        }
        Ok(plan)
    }

    /// Decides what to do with a request: the reply, when a precondition
    /// fails, or the effect to carry out.
    pub fn receive_message(&self, request: Request) -> (step: Step)
        ensures
            step@ == plan(self@, request@),
    {
        match request {
            Request::Sign { hash, public_key } => match self.host_key(&public_key) {
                Some(key) => Step::Perform(Effect::Sign { key, hash }),
                None => Step::Reply(refuse_with("missing private key")),
            },
            Request::CheckPublicKey(question) => Step::Perform(Effect::CheckPublicKey(question)),
            Request::VerifySignature(question) => {
                if self.authenticated_user.is_some() {
                    Step::Reply(refuse_with("user already authenticated"))
                } else {
                    Step::Perform(Effect::VerifySignature(question))
                }
            },
            Request::PtyReq(request) => {
                if self.pty_user {
                    Step::Reply(refuse_with("already requests pty"))
                } else {
                    let size = WindowSize {
                        rows: low16_of(request.height_rows),
                        cols: low16_of(request.width_chars),
                        xpixel: low16_of(request.width_px),
                        ypixel: low16_of(request.height_px),
                    };
                    Step::Perform(Effect::OpenPty { size, term_modes: request.term_modes })
                }
            },
            Request::Shell(request) => {
                if self.shell_process {
                    return Step::Reply(refuse_with("process already running"));
                }
                match &self.authenticated_user {
                    None => Step::Reply(refuse_with("unauthenticated")),
                    Some(user) => match self.shell(user, request) {
                        Ok(plan) => Step::Perform(Effect::Spawn(plan)),
                        Err(message) => Step::Reply(refuse(message)),
                    },
                }
            },
            Request::Wait => {
                if self.shell_process {
                    Step::Perform(Effect::AwaitChild)
                } else {
                    Step::Reply(refuse_with("no child running"))
                }
            },
        }
    }

    /// Serves one received datagram: decodes the request, refuses
    /// descriptors, and decides what to do with the request. `data` is
    /// the receive buffer, `r` what the receive call reported.
    pub fn process(&self, data: &[u8], r: &Received) -> (step: Result<Step, ProtocolError>)
        ensures
            match step {
                Ok(step) => processed(self@, data@, *r) == Ok::<StepView, ProtocolError>(step@),
                Err(e) => processed(self@, data@, *r) == Err::<StepView, ProtocolError>(e),
            },
    {
        match receive_request(data, r) {
            Err(e) => Err(e),
            Ok((request, count)) => {
                if count > 0 {
                    Err(ProtocolError::DescriptorCount { expected: 0, received: count })
                } else {
                    Ok(self.receive_message(request))
                }
            },
        }
    }

    /// Encodes a reply as the payload of one datagram. The descriptors that
    /// the reply names travel with it.
    pub fn respond(&self, reply: &Reply) -> (datagram: Result<Vec<u8>, ProtocolError>)
        ensures
            match datagram {
                Ok(payload) => reply_datagram(reply@) == Ok::<Seq<u8>, ProtocolError>(payload@),
                Err(e) => reply_datagram(reply@) == Err::<Seq<u8>, ProtocolError>(e),
            },
    {
        let payload = encode_response(&reply.response);
        match check_outgoing(payload.len(), reply.descriptors.count()) {
            Ok(()) => Ok(payload),
            Err(e) => Err(e),
        }
    }

    /// Takes the outcome of an effect, updates the state, and gives the
    /// reply to send.
    pub fn complete(&mut self, outcome: Outcome) -> (reply: Reply)
        ensures
            (final(self)@, reply@) == settle(old(self)@, outcome@),
    {
        match outcome {
            Outcome::Signed(signature) => answer_with(Payload::Signature(signature)),
            Outcome::KeyChecked(Ok(allowed)) => answer_with(Payload::Flag(allowed)),
            Outcome::KeyChecked(Err(failure)) => refuse(failure),
            Outcome::SignatureVerified(verdict) => {
                if self.authenticated_user.is_some() {
                    return refuse_with("user already authenticated");
                }
                match verdict {
                    Ok(Some(user)) => {
                        self.authenticated_user = Some(user);
                        answer_with(Payload::Flag(true))
                    },
                    Ok(None) => answer_with(Payload::Flag(false)),
                    Err(failure) => refuse(failure),
                }
            },
            Outcome::PtyOpened(opened) => {
                if self.pty_user {
                    return refuse_with("already requests pty");
                }
                match opened {
                    Ok(()) => {
                        self.pty_user = true;
                        Reply { response: Ok(Payload::Unit), descriptors: Descriptors::PtyController }
                    },
                    Err(failure) => refuse(failure),
                }
            },
            Outcome::Spawned(spawned) => {
                if self.shell_process {
                    return refuse_with("process already running");
                }
                if self.authenticated_user.is_none() {
                    return refuse_with("unauthenticated");
                }
                match spawned {
                    Ok(()) => {
                        self.shell_process = true;
                        Reply {
                            response: Ok(Payload::Unit),
                            descriptors: if self.pty_user {
                                Descriptors::Nothing
                            } else {
                                Descriptors::ChildStdio
                            },
                        }
                    },
                    Err(failure) => refuse(failure),
                }
            },
            Outcome::ChildExited(exited) => {
                if !self.shell_process {
                    return refuse_with("no child running");
                }
                self.shell_process = false;
                match exited {
                    Ok(code) => answer_with(Payload::ExitCode(code)),
                    Err(failure) => refuse(failure),
                }
            },
        }
    }
}

} // verus!
