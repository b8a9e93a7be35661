//! The client side of the SOCKS5 handshake as a pure session machine.
//!
//! The machine decides; the caller moves bytes. Each step consumes what the
//! peer sent (or a timeout / transport failure) and answers with the one
//! action to perform next: write a frame and read an exact number of bytes,
//! finish successfully, or fail with a [`ProxyError`]. The blocking
//! validator and any other transport drive the same machine, so the
//! protocol logic exists — and is verified — exactly once.

use vstd::prelude::*;

use crate::socks5::{
    spec_connect_request, spec_greeting_with_auth, spec_userpass_frame, encode_connect_request,
    encode_greeting, encode_userpass, ProxyError, TargetAddress,
};

verus! {

/// Where the handshake stands.
pub enum SessionPhase {
    /// Nothing sent yet.
    Greeting,
    /// Greeting sent; awaiting the two-byte method selection.
    AwaitMethod,
    /// Credentials sent; awaiting the two-byte sub-negotiation status.
    AwaitAuthReply,
    /// CONNECT sent; awaiting the ten-byte reply.
    AwaitConnectReply,
    /// The tunnel is up.
    Established,
    /// The handshake failed; nothing more may be sent.
    Failed,
}

/// What the transport reports back to the machine.
pub enum SessionInput {
    /// Exactly the bytes the previous action asked to read.
    Bytes(Vec<u8>),
    /// The configured deadline passed first.
    TimedOut,
    /// The transport failed; holds the underlying description.
    Failed(String),
}

/// What the caller must do next.
pub enum SessionAction {
    /// Write the frame, then read exactly this many bytes and hand them
    /// back via [`ClientHandshake::step`].
    SendThenRead(Vec<u8>, usize),
    /// The handshake is complete; the stream is now a transparent tunnel.
    Succeed,
    /// The handshake failed with this error; send nothing more.
    Fail(ProxyError),
}

/// One client handshake: greeting, optional username/password
/// sub-negotiation, CONNECT. It always offers both "no auth" and
/// "user/pass"; if the server picks any method other than those two or the
/// rejection byte, the machine proceeds directly to CONNECT, as the
/// blocking validator always has.
pub struct ClientHandshake {
    /// Username bytes, if the caller holds credentials.
    pub username: Option<Vec<u8>>,
    /// Password bytes, if the caller holds credentials.
    pub password: Option<Vec<u8>>,
    /// The destination the CONNECT will name.
    pub target: TargetAddress,
    /// Where the handshake stands.
    pub phase: SessionPhase,
}

impl ClientHandshake {
    /// The machine's invariant: credentials fit their one-byte length
    /// prefixes and the target satisfies the data-model invariant.
    pub open spec fn well_formed(&self) -> bool {
        &&& (self.username is Some ==> self.username.unwrap()@.len() <= 255)
        &&& (self.password is Some ==> self.password.unwrap()@.len() <= 255)
        &&& self.target.well_formed()
    }

    /// Whether the machine still expects input.
    pub open spec fn in_progress(&self) -> bool {
        self.phase is AwaitMethod || self.phase is AwaitAuthReply
            || self.phase is AwaitConnectReply
    }

    /// Whether both credentials are present (the data model treats them as
    /// one optional pair: both or neither).
    pub open spec fn has_credentials(&self) -> bool {
        self.username is Some && self.password is Some
    }

    /// Begin a handshake towards `target`.
    pub fn new(
        username: Option<Vec<u8>>,
        password: Option<Vec<u8>>,
        target: TargetAddress,
    ) -> (r: ClientHandshake)
        requires
            (username is Some ==> username.unwrap()@.len() <= 255),
            (password is Some ==> password.unwrap()@.len() <= 255),
            target.well_formed(),
        ensures
            r.well_formed(),
            r.phase is Greeting,
            r.username == username,
            r.password == password,
            r.target == target,
    {
        ClientHandshake { username, password, target, phase: SessionPhase::Greeting }
    }

    /// Send the greeting. The validator always offers both "no auth" and
    /// "user/pass", whether or not it holds credentials.
    pub fn start(&mut self) -> (action: SessionAction)
        requires
            old(self).well_formed(),
            old(self).phase is Greeting,
        ensures
            final(self).well_formed(),
            final(self).phase is AwaitMethod,
            final(self).username == old(self).username,
            final(self).password == old(self).password,
            final(self).target == old(self).target,
            (action matches SessionAction::SendThenRead(f, n) && f@ == spec_greeting_with_auth()
                && n == 2),
    {
        self.phase = SessionPhase::AwaitMethod;
        SessionAction::SendThenRead(encode_greeting(true), 2)
    }

    /// Feed the machine what the transport produced; get the next action.
    ///
    /// The whole protocol is in the postcondition, phase by phase:
    /// timeouts and transport failures end the session with
    /// `ConnectTimeout` or `Io`; a method reply of 0xFF ends it with
    /// `HandshakeRejected` and nothing further is sent; a demand for
    /// credentials the caller does not hold ends it at once with
    /// `AuthenticationFailed`, with no further I/O; a nonzero
    /// sub-negotiation status is `AuthenticationFailed`; a nonzero CONNECT
    /// reply code is `UpstreamRejected` with the code preserved.
    pub fn step(&mut self, input: SessionInput) -> (action: SessionAction)
        requires
            old(self).well_formed(),
            old(self).in_progress(),
        ensures
            final(self).well_formed(),
            final(self).username == old(self).username,
            final(self).password == old(self).password,
            final(self).target == old(self).target,
            (input is TimedOut ==> (action matches SessionAction::Fail(e)
                && e is ConnectTimeout)),
            (input matches SessionInput::Failed(m) ==> (action matches SessionAction::Fail(e)
                && e matches ProxyError::Io(d) && d@ == m@)),
            (input matches SessionInput::Bytes(b) ==> spec_step_bytes(
                *old(self),
                b@,
                *final(self),
                action,
            )),
            (action is Fail <==> final(self).phase is Failed),
            (action is Succeed <==> final(self).phase is Established),
            (action is SendThenRead ==> final(self).in_progress()),
    {
        match input {
            SessionInput::TimedOut => {
                self.phase = SessionPhase::Failed;
                SessionAction::Fail(ProxyError::ConnectTimeout)
            },
            SessionInput::Failed(m) => {
                self.phase = SessionPhase::Failed;
                SessionAction::Fail(ProxyError::Io(m))
            },
            SessionInput::Bytes(b) => self.step_bytes(b),
        }
    }

    fn step_bytes(&mut self, b: Vec<u8>) -> (action: SessionAction)
        requires
            old(self).well_formed(),
            old(self).in_progress(),
        ensures
            final(self).well_formed(),
            final(self).username == old(self).username,
            final(self).password == old(self).password,
            final(self).target == old(self).target,
            spec_step_bytes(*old(self), b@, *final(self), action),
            (action is Fail <==> final(self).phase is Failed),
            (action is Succeed <==> final(self).phase is Established),
            (action is SendThenRead ==> final(self).in_progress()),
    {
        match self.phase {
            SessionPhase::AwaitMethod => {
                if b.len() != 2 {
                    self.phase = SessionPhase::Failed;
                    return SessionAction::Fail(
                        ProxyError::Io(String::from_str("short read of method selection")),
                    );
                }
                if b[0] != 0x05 {
                    self.phase = SessionPhase::Failed;
                    return SessionAction::Fail(
                        ProxyError::Io(String::from_str("invalid SOCKS version in method reply")),
                    );
                }
                if b[1] == 0xFF {
                    self.phase = SessionPhase::Failed;
                    return SessionAction::Fail(ProxyError::HandshakeRejected);
                }
                if b[1] == 0x02 {
                    let frame = match (&self.username, &self.password) {
                        (Some(user), Some(pass)) => encode_userpass(user, pass),
                        _ => {
                            self.phase = SessionPhase::Failed;
                            return SessionAction::Fail(ProxyError::AuthenticationFailed);
                        },
                    };
                    self.phase = SessionPhase::AwaitAuthReply;
                    return SessionAction::SendThenRead(frame, 2);
                }
                let frame = encode_connect_request(&self.target);
                self.phase = SessionPhase::AwaitConnectReply;
                SessionAction::SendThenRead(frame, 10)
            },
            SessionPhase::AwaitAuthReply => {
                if b.len() != 2 {
                    self.phase = SessionPhase::Failed;
                    return SessionAction::Fail(
                        ProxyError::Io(String::from_str("short read of auth status")),
                    );
                }
                if b[1] != 0x00 {
                    self.phase = SessionPhase::Failed;
                    return SessionAction::Fail(ProxyError::AuthenticationFailed);
                }
                let frame = encode_connect_request(&self.target);
                self.phase = SessionPhase::AwaitConnectReply;
                SessionAction::SendThenRead(frame, 10)
            },
            SessionPhase::AwaitConnectReply => {
                if b.len() != 10 {
                    self.phase = SessionPhase::Failed;
                    return SessionAction::Fail(
                        ProxyError::Io(String::from_str("short read of CONNECT reply")),
                    );
                }
                if b[1] != 0x00 {
                    self.phase = SessionPhase::Failed;
                    return SessionAction::Fail(ProxyError::UpstreamRejected(b[1]));
                }
                self.phase = SessionPhase::Established;
                SessionAction::Succeed
            },
            _ => {
                proof {
                    assert(false);
                }
                SessionAction::Succeed
            },
        }
    }
}

/// The whole byte-driven protocol, phase by phase. `pre` is the machine
/// before the step, `b` what was read, `post` the machine after, `action`
/// what the step answered.
pub open spec fn spec_step_bytes(
    pre: ClientHandshake,
    b: Seq<u8>,
    post: ClientHandshake,
    action: SessionAction,
) -> bool {
    match pre.phase {
        SessionPhase::AwaitMethod => {
            if b.len() != 2 || b[0] != 0x05 {
                (action matches SessionAction::Fail(e) && e is Io) && post.phase is Failed
            } else if b[1] == 0xFF {
                (action matches SessionAction::Fail(e) && e is HandshakeRejected)
                    && post.phase is Failed
            } else if b[1] == 0x02 {
                if pre.has_credentials() {
                    (action matches SessionAction::SendThenRead(f, n) && f@ == spec_userpass_frame(
                        pre.username.unwrap()@,
                        pre.password.unwrap()@,
                    ) && n == 2) && post.phase is AwaitAuthReply
                } else {
                    (action matches SessionAction::Fail(e) && e is AuthenticationFailed)
                        && post.phase is Failed
                }
            } else {
                (action matches SessionAction::SendThenRead(f, n) && f@ == spec_connect_request(
                    pre.target,
                ) && n == 10) && post.phase is AwaitConnectReply
            }
        },
        SessionPhase::AwaitAuthReply => {
            if b.len() != 2 {
                (action matches SessionAction::Fail(e) && e is Io) && post.phase is Failed
            } else if b[1] != 0x00 {
                (action matches SessionAction::Fail(e) && e is AuthenticationFailed)
                    && post.phase is Failed
            } else {
                (action matches SessionAction::SendThenRead(f, n) && f@ == spec_connect_request(
                    pre.target,
                ) && n == 10) && post.phase is AwaitConnectReply
            }
        },
        SessionPhase::AwaitConnectReply => {
            if b.len() != 10 {
                (action matches SessionAction::Fail(e) && e is Io) && post.phase is Failed
            } else if b[1] != 0x00 {
                (action matches SessionAction::Fail(e) && e == ProxyError::UpstreamRejected(b[1]))
                    && post.phase is Failed
            } else {
                action is Succeed && post.phase is Established
            }
        },
        _ => true,
    }
}

/// An upstream that answers the greeting with method 0xFF ends the
/// handshake at once with `HandshakeRejected`, and the machine sends no
/// further protocol bytes: the action carries no frame, and the machine
/// refuses further steps.
pub proof fn lemma_rejection_sends_nothing(
    pre: ClientHandshake,
    b: Seq<u8>,
    post: ClientHandshake,
    action: SessionAction,
)
    requires
        pre.phase is AwaitMethod,
        b.len() == 2,
        b[0] == 0x05,
        b[1] == 0xFF,
        spec_step_bytes(pre, b, post, action),
    ensures
        action matches SessionAction::Fail(e) && e is HandshakeRejected,
        !(action is SendThenRead),
        post.phase is Failed,
        !post.in_progress(),
{
}

/// A server that demands username/password from a caller without a full
/// credential pair fails the handshake immediately: no sub-negotiation
/// frame is sent and no further I/O happens.
pub proof fn lemma_missing_credentials_fail_fast(
    pre: ClientHandshake,
    b: Seq<u8>,
    post: ClientHandshake,
    action: SessionAction,
)
    requires
        pre.phase is AwaitMethod,
        b.len() == 2,
        b[0] == 0x05,
        b[1] == 0x02,
        !pre.has_credentials(),
        spec_step_bytes(pre, b, post, action),
    ensures
        action matches SessionAction::Fail(e) && e is AuthenticationFailed,
        !(action is SendThenRead),
        post.phase is Failed,
        !post.in_progress(),
{
}

} // verus!
