//! The per-connection SSH session state machine.
//!
//! One `SshSession` exists per SSH connection. It owns the map from channel
//! id to per-channel state and the memoized authenticated identity, and it
//! decides, for each protocol event, how the channel state changes and which
//! engine call (attach, resize, detach, sink write) the surrounding event
//! loop must perform. The engine calls themselves are asynchronous and run
//! outside this crate; the session hands them out as plain values and takes
//! their results back.

use vstd::prelude::*;

verus! {

use std::collections::HashMap;
use crate::auth::{password_check, verify_password_hash};
use crate::keys::{
    bytes_eq, lemma_parsed_registered_keys_head, openssh_key_of, parse_openssh_key,
    parsed_registered_keys,
};
use crate::text::str_eq;
use crate::text::string_from_utf8;
use vstd::string::StringExecFns;

broadcast use vstd::std_specs::hash::group_hash_axioms;

/// Width, in cells, assumed for a terminal whose size was never reported.
pub const DEFAULT_PTY_WIDTH: u16 = 80;

/// Height, in cells, assumed for a terminal whose size was never reported.
pub const DEFAULT_PTY_HEIGHT: u16 = 24;

/// Terminal parameters recorded by a pty request: the terminal type and the
/// terminal mode block, as (opcode, argument) pairs in wire order.
pub struct PtyParams {
    pub term: String,
    pub modes: Vec<(u8, u32)>,
}

/// The binding of a channel to a live process inside the user's container.
/// `written` is the ghost history of all bytes handed to the process's
/// input sink, in order.
pub struct Attachment {
    pub container_id: String,
    pub exec_id: String,
    pub written: Ghost<Seq<u8>>,
}

/// Where a channel stands between open and teardown.
pub enum ChannelState {
    /// No attach has been requested.
    Inactive,
    /// An attach call is in flight; `sent_size` is the terminal size it was
    /// given, if a pty was requested.
    Attaching { sent_size: Option<(u16, u16)> },
    /// The channel is bound to an exec process.
    Attached { attachment: Attachment },
}

/// Per-channel record: pty parameters, last reported terminal size,
/// collected environment assignments, and the attachment state.
pub struct SshChannel {
    pub pty: Option<PtyParams>,
    pub size: Option<(u16, u16)>,
    pub env: Vec<(String, String)>,
    pub state: ChannelState,
}

/// The authenticated identity bound to a session: the username and the raw
/// Ed25519 key bytes of the user's registered public keys.
pub struct SshUser {
    pub username: String,
    pub keys: Vec<Vec<u8>>,
}

/// Per-connection session state: the memoized identity and the channel map.
pub struct SshSession {
    pub user: Option<SshUser>,
    pub channels: HashMap<u64, SshChannel>,
}

/// Why a session operation failed. Each failure rejects only the triggering
/// request, never the whole connection.
#[derive(Debug)]
pub enum SessionError {
    /// An operation that needs an authenticated user ran before any bound.
    NotAuthenticated,
    /// An auth attempt named a different username than the one bound.
    UserMismatch,
    /// A registered key of the user failed to parse or is not Ed25519.
    UnsupportedKey,
    /// The event named a channel id that is not in the map.
    ChannelNotFound,
    /// An attach was requested on a channel that is attaching or attached.
    AlreadyAttached,
    /// An attach result arrived for a channel that was not attaching.
    NotAttaching,
    /// An exec request carried a payload that is not valid UTF-8.
    BadCommandEncoding,
}

/// A pseudo-terminal allocation request handed to the adapter.
pub struct PtySpec {
    pub term: String,
    pub modes: Vec<(u8, u32)>,
    pub width: u16,
    pub height: u16,
}

/// An attach request handed to the adapter: whose container, which command
/// (none means an interactive login shell), and which pty to allocate.
pub struct AttachCall {
    pub username: String,
    pub command: Option<String>,
    pub pty: Option<PtySpec>,
}

/// A resize call handed to the adapter.
pub struct ResizeCall {
    pub exec_id: String,
    pub width: u16,
    pub height: u16,
}

/// A teardown call handed to the adapter: kill this exec process,
/// best-effort. Its outcome is logged, never propagated.
pub struct DetachCall {
    pub exec_id: String,
}

/// What to do with a data frame.
pub enum DataOutcome {
    /// Write the payload to the attached process's input sink.
    Write { exec_id: String },
    /// The channel is missing or not attached: drop the frame with a logged
    /// warning.
    Dropped,
}

/// The answer to a subsystem request.
pub enum SubsystemDecision {
    /// The channel leaves the session's map; its transport goes to the
    /// file-transfer handler.
    HandoffFileTransfer,
    /// The name is not a subsystem this server offers: fail the request.
    Reject,
}

/// An advisory or authoritative authentication answer.
pub enum AuthDecision {
    Accept,
    Reject,
}

/// Whether answering an auth request for a username needs a directory fetch.
pub enum UserLookup {
    /// The identity is already bound to this session under that username.
    Cached,
    /// No identity is bound yet: fetch the user's record, then bind it.
    Fetch,
    /// An identity is bound under a different username: hard failure.
    Mismatch,
}

/// The terminal size an attach uses: the last recorded size, or the default
/// where none was ever reported.
pub open spec fn effective_size(size: Option<(u16, u16)>) -> (u16, u16) {
    match size {
        Some(s) => s,
        None => (DEFAULT_PTY_WIDTH, DEFAULT_PTY_HEIGHT),
    }
}

/// The size handed to an attach call for channel `c`, if a pty was requested.
pub open spec fn attach_sent_size(c: SshChannel) -> Option<(u16, u16)> {
    if c.pty is Some {
        Some(effective_size(c.size))
    } else {
        None
    }
}

/// `call` is the attach call that channel `c` yields for `username` and
/// `command`: the channel's pty parameters with the effective size where a
/// pty was requested, and the command as given (none means an interactive
/// login shell).
pub open spec fn attach_call_matches(
    c: SshChannel,
    username: Seq<char>,
    command: Option<Seq<char>>,
    call: AttachCall,
) -> bool {
    &&& call.username@ == username
    &&& match (command, call.command) {
        (Some(s), Some(cs)) => cs@ == s,
        (None, None) => true,
        _ => false,
    }
    &&& match c.pty {
        Some(p) => call.pty matches Some(ps) && ps.term@ == p.term@ && ps.modes@ == p.modes@ && (
        ps.width,
        ps.height,
        ) == effective_size(c.size),
        None => call.pty is None,
    }
}

/// The one attach path: how a session answers an attach request (`command`
/// from an exec request, none from a shell request) on channel `id`. The
/// request succeeds if and only if an identity is bound, the channel exists,
/// and nothing is attached or attaching on it; then the channel moves to
/// `Attaching` and the call carries the recorded pty parameters. On failure
/// nothing changes and the error says exactly what was missing.
pub open spec fn begin_attach_spec(
    pre: SshSession,
    post: SshSession,
    id: u64,
    command: Option<Seq<char>>,
    r: Result<AttachCall, SessionError>,
) -> bool {
    &&& post.user == pre.user
    &&& (r is Ok <==> pre.user is Some && pre.channels@.contains_key(id)
        && pre.channels@[id].state is Inactive)
    &&& match r {
        Ok(call) => {
            &&& pre.user matches Some(u) && attach_call_matches(
                pre.channels@[id],
                u.username@,
                command,
                call,
            )
            &&& map_updated_at(pre.channels@, post.channels@, id)
            &&& same_but_state(pre.channels@[id], post.channels@[id])
            &&& post.channels@[id].state matches ChannelState::Attaching { sent_size }
                && sent_size == attach_sent_size(pre.channels@[id])
        },
        Err(e) => {
            &&& post.channels@ == pre.channels@
            &&& (e is NotAuthenticated <==> pre.user is None)
            &&& (e is ChannelNotFound <==> pre.user is Some && !pre.channels@.contains_key(id))
            &&& (e is AlreadyAttached <==> pre.user is Some && pre.channels@.contains_key(id) && !(
            pre.channels@[id].state is Inactive))
        },
    }
}

/// A freshly opened channel: nothing recorded, nothing attached.
pub open spec fn is_empty_channel(c: SshChannel) -> bool {
    &&& c.pty is None
    &&& c.size is None
    &&& c.env@ == Seq::<(String, String)>::empty()
    &&& c.state is Inactive
}

/// The channel map changed at `id` alone.
pub open spec fn map_updated_at(
    pre: Map<u64, SshChannel>,
    post: Map<u64, SshChannel>,
    id: u64,
) -> bool {
    &&& post.contains_key(id)
    &&& post =~= pre.insert(id, post[id])
}

/// The two channels agree on everything but the recorded size.
pub open spec fn same_but_size(c: SshChannel, c2: SshChannel) -> bool {
    &&& c2.pty == c.pty
    &&& c2.env == c.env
    &&& c2.state == c.state
}

/// The two channels agree on everything but the environment list.
pub open spec fn same_but_env(c: SshChannel, c2: SshChannel) -> bool {
    &&& c2.pty == c.pty
    &&& c2.size == c.size
    &&& c2.state == c.state
}

/// The two channels agree on everything but the attachment state.
pub open spec fn same_but_state(c: SshChannel, c2: SshChannel) -> bool {
    &&& c2.pty == c.pty
    &&& c2.size == c.size
    &&& c2.env == c.env
}

/// The key texts of a directory record: each registered key is a (name,
/// OpenSSH text) pair, and only the text matters here.
pub open spec fn key_texts(raw: Seq<(String, String)>) -> Seq<Seq<char>> {
    raw.map_values(|p: (String, String)| p.1@)
}

impl SshSession {
    /// Whether answering an authentication request for `username` needs a
    /// directory fetch. The identity is resolved at most once per session:
    /// once bound, the same username answers from the cache and any other
    /// username is a hard mismatch.
    pub fn user_lookup(&self, username: &str) -> (r: UserLookup)
        ensures
            match self.user {
                Some(u) => r == (if u.username@ == username@ {
                    UserLookup::Cached
                } else {
                    UserLookup::Mismatch
                }),
                None => r == UserLookup::Fetch,
            },
    {
        match &self.user {
            Some(u) => {
                if str_eq(u.username.as_str(), username) {
                    UserLookup::Cached
                } else {
                    UserLookup::Mismatch
                }
            },
            None => UserLookup::Fetch,
        }
    }

    /// Binds the identity fetched from the user directory to this session:
    /// the username and its registered keys, each parsed from OpenSSH text.
    /// A registered key that fails to parse, or whose algorithm is not
    /// Ed25519, rejects the whole record; Ed25519 is the one signature
    /// algorithm this service accepts.
    pub fn bind_user(&mut self, username: String, raw_keys: Vec<(String, String)>) -> (r: Result<
        (),
        SessionError,
    >)
        requires
            old(self).user is None,
        ensures
            final(self).channels@ == old(self).channels@,
            r is Ok <==> parsed_registered_keys(key_texts(raw_keys@)) is Some,
            match parsed_registered_keys(key_texts(raw_keys@)) {
                Some(ks) => r is Ok && (final(self).user matches Some(u) && u.username == username
                    && u.keys.deep_view() == ks),
                None => (r matches Err(e) && e is UnsupportedKey) && final(self).user is None,
            },
    {
        let ghost texts = key_texts(raw_keys@);
        let mut keys: Vec<Vec<u8>> = Vec::new();
        let mut i: usize = 0;
        proof {
            assert(texts.skip(0) =~= texts);
            assert(keys.deep_view() =~~= Seq::<Seq<u8>>::empty());
        }
        while i < raw_keys.len()
            invariant
                self.user is None,
                self.channels@ == old(self).channels@,
                texts == key_texts(raw_keys@),
                i <= raw_keys@.len(),
                match parsed_registered_keys(texts.skip(i as int)) {
                    Some(rest) => parsed_registered_keys(texts) == Some(keys.deep_view() + rest),
                    None => parsed_registered_keys(texts) is None,
                },
            decreases raw_keys@.len() - i,
        {
            proof {
                lemma_parsed_registered_keys_head(texts, i as int);
                assert(texts[i as int] == raw_keys@[i as int].1@);
            }
            let parsed = parse_openssh_key(raw_keys[i].1.as_str());
            match parsed {
                Some(k) => {
                    if !k.ed25519 {
                        return Err(SessionError::UnsupportedKey);
                    }
                    let ghost kb = k.key_bytes@;
                    let ghost pre_keys = keys.deep_view();
                    keys.push(k.key_bytes);
                    proof {
                        assert(keys.deep_view() =~~= pre_keys.push(kb));
                        match parsed_registered_keys(texts.skip(i as int + 1)) {
                            Some(rest) => {
                                assert(pre_keys + (seq![kb] + rest) =~= pre_keys.push(kb) + rest);
                            },
                            None => {},
                        }
                    }
                },
                None => {
                    return Err(SessionError::UnsupportedKey);
                },
            }
            i += 1;
        }
        proof {
            assert(texts.skip(texts.len() as int) =~= Seq::<Seq<char>>::empty());
            assert(keys.deep_view() + Seq::<Seq<u8>>::empty() =~= keys.deep_view());
        }
        self.user = Some(SshUser { username, keys });
        Ok(())
    }

    /// The SSH layer asks, before any signature is verified, whether an
    /// offered public key would be accepted. The answer rests on the cached
    /// identity alone — no directory fetch happens here — and a key whose
    /// algorithm is not Ed25519 is rejected before any comparison. Accepted
    /// exactly when the offered key is one of the user's registered keys.
    pub fn auth_publickey_offered(&self, username: &str, offered_ed25519: bool, offered_key: &Vec<
        u8,
    >) -> (r: Result<AuthDecision, SessionError>)
        ensures
            match self.user {
                None => r matches Err(e) && e is NotAuthenticated,
                Some(u) => if u.username@ != username@ {
                    r matches Err(e) && e is UserMismatch
                } else {
                    r matches Ok(d) && (d is Accept <==> offered_ed25519 && exists|i: int|
                        0 <= i < u.keys@.len() && #[trigger] u.keys@[i]@ == offered_key@)
                },
            },
    {
        match &self.user {
            Some(user) => {
                if !str_eq(user.username.as_str(), username) {
                    return Err(SessionError::UserMismatch);
                }
                if !offered_ed25519 {
                    return Ok(AuthDecision::Reject);
                }
                let mut i: usize = 0;
                while i < user.keys.len()
                    invariant
                        self.user matches Some(uu) && uu == *user,
                        user.username@ == username@,
                        offered_ed25519,
                        i <= user.keys@.len(),
                        forall|j: int| 0 <= j < i ==> #[trigger] user.keys@[j]@ != offered_key@,
                    decreases user.keys@.len() - i,
                {
                    if bytes_eq(&user.keys[i], offered_key) {
                        return Ok(AuthDecision::Accept);
                    }
                    i += 1;
                }
                Ok(AuthDecision::Reject)
            },
            None => Err(SessionError::NotAuthenticated),
        }
    }

    /// The SSH layer has cryptographically verified the signature: accept
    /// unconditionally for the bound username — re-checking the key here
    /// would be redundant. A different username than the bound one is still
    /// a hard failure.
    pub fn auth_publickey(&self, username: &str) -> (r: Result<AuthDecision, SessionError>)
        ensures
            match self.user {
                None => r matches Err(e) && e is NotAuthenticated,
                Some(u) => if u.username@ != username@ {
                    r matches Err(e) && e is UserMismatch
                } else {
                    r matches Ok(d) && d is Accept
                },
            },
    {
        match &self.user {
            Some(u) => {
                if str_eq(u.username.as_str(), username) {
                    Ok(AuthDecision::Accept)
                } else {
                    Err(SessionError::UserMismatch)
                }
            },
            None => Err(SessionError::NotAuthenticated),
        }
    }

    /// Password authentication, available only where the identity opts in.
    /// The offered password is verified against the directory's stored hash;
    /// on the first success the username is bound to the session (with no
    /// registered keys cached). A username differing from one already bound
    /// is a hard failure, as with keys.
    pub fn auth_password(
        &mut self,
        username: String,
        password: &str,
        password_hash: &str,
        password_auth_allowed: bool,
    ) -> (r: Result<AuthDecision, SessionError>)
        ensures
            final(self).channels@ == old(self).channels@,
            match old(self).user {
                Some(u) => if u.username@ != username@ {
                    (r matches Err(e) && e is UserMismatch) && final(self).user == old(self).user
                } else {
                    (r matches Ok(d) && (d is Accept <==> password_auth_allowed && password_check(
                        password@,
                        password_hash@,
                    ) == Some(true))) && final(self).user == old(self).user
                },
                None => {
                    &&& r matches Ok(d) && (d is Accept <==> password_auth_allowed
                        && password_check(password@, password_hash@) == Some(true))
                    &&& if r == Ok::<AuthDecision, SessionError>(AuthDecision::Accept) {
                        final(self).user matches Some(u) && u.username == username && u.keys@
                            == Seq::<Vec<u8>>::empty()
                    } else {
                        final(self).user is None
                    }
                },
            },
    {
        let already_bound = match &self.user {
            Some(u) => {
                if !str_eq(u.username.as_str(), username.as_str()) {
                    return Err(SessionError::UserMismatch);
                }
                true
            },
            None => false,
        };
        if !password_auth_allowed {
            return Ok(AuthDecision::Reject);
        }
        match verify_password_hash(password, password_hash) {
            Some(true) => {
                if !already_bound {
                    self.user = Some(SshUser { username, keys: Vec::new() });
                }
                Ok(AuthDecision::Accept)
            },
            _ => Ok(AuthDecision::Reject),
        }
    }

    /// A fresh session: no identity bound, no channels.
    pub fn new() -> (s: SshSession)
        ensures
            s.user is None,
            s.channels@ == Map::<u64, SshChannel>::empty(),
    {
        SshSession { user: None, channels: HashMap::new() }
    }

    /// The client opened a session channel. Always accepted; registers an
    /// empty channel under the id.
    pub fn channel_open_session(&mut self, id: u64) -> (accepted: bool)
        ensures
            accepted,
            map_updated_at(old(self).channels@, final(self).channels@, id),
            is_empty_channel(final(self).channels@[id]),
            final(self).user == old(self).user,
    {
        let c = SshChannel {
            pty: None,
            size: None,
            env: Vec::new(),
            state: ChannelState::Inactive,
        };
        self.channels.insert(id, c);
        true
    }

    /// The client set an environment variable for the channel. The pair is
    /// appended to the channel's environment list; a missing channel is
    /// ignored. Never fails.
    pub fn env_request(&mut self, id: u64, name: String, value: String)
        ensures
            old(self).channels@.contains_key(id) ==> {
                &&& map_updated_at(old(self).channels@, final(self).channels@, id)
                &&& same_but_env(old(self).channels@[id], final(self).channels@[id])
                &&& final(self).channels@[id].env@ == old(self).channels@[id].env@.push(
                    (name, value),
                )
            },
            !old(self).channels@.contains_key(id) ==> final(self).channels@
                == old(self).channels@,
            final(self).user == old(self).user,
    {
        match self.channels.remove(&id) {
            Some(mut c) => {
                c.env.push((name, value));
                self.channels.insert(id, c);
            },
            None => {},
        }
    }

    /// The client requested a pseudo-terminal: record the terminal type, the
    /// mode block, and the size. Does not itself attach; a missing channel is
    /// ignored. Widths and heights beyond `u16` are truncated, as the wire
    /// format's cells are 16-bit.
    pub fn pty_request(&mut self, id: u64, term: String, col_width: u32, row_height: u32, modes: Vec<(u8, u32)>)
        ensures
            old(self).channels@.contains_key(id) ==> {
                &&& map_updated_at(old(self).channels@, final(self).channels@, id)
                &&& final(self).channels@[id].env == old(self).channels@[id].env
                &&& final(self).channels@[id].state == old(self).channels@[id].state
                &&& final(self).channels@[id].pty matches Some(p) && p.term == term && p.modes
                    == modes
                &&& final(self).channels@[id].size == Some(
                    (col_width as u16, row_height as u16),
                )
            },
            !old(self).channels@.contains_key(id) ==> final(self).channels@
                == old(self).channels@,
            final(self).user == old(self).user,
    {
        match self.channels.remove(&id) {
            Some(mut c) => {
                c.pty = Some(PtyParams { term, modes });
                c.size = Some((
                    #[verifier::truncate] (col_width as u16),
                    #[verifier::truncate] (row_height as u16),
                ));
                self.channels.insert(id, c);
            },
            None => {},
        }
    }

    /// The client's terminal was resized: record the new size; if the channel
    /// is attached, hand back the resize call to forward to the adapter. A
    /// resize before any attach only updates the recorded state and is
    /// applied when the attach happens; it is not an error.
    pub fn window_change_request(&mut self, id: u64, col_width: u32, row_height: u32) -> (r: Result<
        Option<ResizeCall>,
        SessionError,
    >)
        ensures
            old(self).channels@.contains_key(id) ==> {
                &&& map_updated_at(old(self).channels@, final(self).channels@, id)
                &&& same_but_size(old(self).channels@[id], final(self).channels@[id])
                &&& final(self).channels@[id].size == Some(
                    (col_width as u16, row_height as u16),
                )
                &&& match old(self).channels@[id].state {
                    ChannelState::Attached { attachment } => r matches Ok(Some(rc))
                        && rc.exec_id@ == attachment.exec_id@ && rc.width == col_width as u16
                        && rc.height == row_height as u16,
                    _ => r matches Ok(None),
                }
            },
            !old(self).channels@.contains_key(id) ==> {
                &&& final(self).channels@ == old(self).channels@
                &&& r matches Err(e) && e is ChannelNotFound
            },
            final(self).user == old(self).user,
    {
        let width = #[verifier::truncate] (col_width as u16);
        let height = #[verifier::truncate] (row_height as u16);
        match self.channels.remove(&id) {
            Some(mut c) => {
                c.size = Some((width, height));
                let r = match &c.state {
                    ChannelState::Attached { attachment } => Ok(
                        Some(
                            ResizeCall {
                                exec_id: attachment.exec_id.clone(),
                                width,
                                height,
                            },
                        ),
                    ),
                    _ => Ok(None),
                };
                self.channels.insert(id, c);
                r
            },
            None => Err(SessionError::ChannelNotFound),
        }
    }

    /// The client requested the named subsystem on the channel. The one
    /// matched name is the file-transfer subsystem: its channel is removed
    /// from the map and its transport is handed off wholesale to the
    /// file-transfer handler, after which this session no longer owns the
    /// channel. Any other name is rejected at the protocol level.
    pub fn subsystem_request(&mut self, id: u64, name: &str) -> (r: Result<
        SubsystemDecision,
        SessionError,
    >)
        ensures
            !old(self).channels@.contains_key(id) ==> {
                &&& final(self).channels@ == old(self).channels@
                &&& r matches Err(e) && e is ChannelNotFound
            },
            old(self).channels@.contains_key(id) && name@ == "sftp"@ ==> {
                &&& final(self).channels@ =~= old(self).channels@.remove(id)
                &&& r matches Ok(d) && d is HandoffFileTransfer
            },
            old(self).channels@.contains_key(id) && name@ != "sftp"@ ==> {
                &&& final(self).channels@ == old(self).channels@
                &&& r matches Ok(d) && d is Reject
            },
            final(self).user == old(self).user,
    {
        if !self.channels.contains_key(&id) {
            return Err(SessionError::ChannelNotFound);
        }
        if str_eq(name, "sftp") {
            self.channels.remove(&id);
            Ok(SubsystemDecision::HandoffFileTransfer)
        } else {
            Ok(SubsystemDecision::Reject)
        }
    }

    /// A data frame arrived from the client. If the channel is attached, the
    /// payload goes to the process's input sink, and the ghost history of
    /// written bytes grows by exactly this payload, in order; otherwise the
    /// frame is dropped (a logged warning, never a failure).
    pub fn data(&mut self, id: u64, data: &[u8]) -> (r: DataOutcome)
        ensures
            (old(self).channels@.contains_key(id) && old(self).channels@[id].state matches
                ChannelState::Attached { attachment }) ==> {
                let att = old(self).channels@[id].state->Attached_attachment;
                &&& map_updated_at(old(self).channels@, final(self).channels@, id)
                &&& same_but_state(old(self).channels@[id], final(self).channels@[id])
                &&& final(self).channels@[id].state matches ChannelState::Attached {
                    attachment: att2,
                } && att2.container_id == att.container_id && att2.exec_id == att.exec_id
                    && att2.written@ == att.written@ + data@
                &&& r matches DataOutcome::Write { exec_id } && exec_id@ == att.exec_id@
            },
            !(old(self).channels@.contains_key(id) && old(self).channels@[id].state matches
                ChannelState::Attached { .. }) ==> {
                &&& final(self).channels@ == old(self).channels@
                &&& r is Dropped
            },
            final(self).user == old(self).user,
    {
        match self.channels.remove(&id) {
            Some(mut c) => {
                match c.state {
                    ChannelState::Attached { mut attachment } => {
                        attachment.written = Ghost(attachment.written@ + data@);
                        let exec_id = attachment.exec_id.clone();
                        c.state = ChannelState::Attached { attachment };
                        self.channels.insert(id, c);
                        DataOutcome::Write { exec_id }
                    },
                    other => {
                        c.state = other;
                        self.channels.insert(id, c);
                        DataOutcome::Dropped
                    },
                }
            },
            None => DataOutcome::Dropped,
        }
    }
    /// An exec request and a shell request converge on this one attach path.
    /// It validates the request, marks the channel attaching, and hands back
    /// the attach call for the adapter; the attach result comes back through
    /// `complete_attach` or `abort_attach`. A second attach request on a
    /// channel that is already attaching or attached is rejected: an
    /// attachment, once set, is never silently overwritten.
    pub fn begin_attach(&mut self, id: u64, command: Option<String>) -> (r: Result<
        AttachCall,
        SessionError,
    >)
        ensures
            begin_attach_spec(
                *old(self),
                *final(self),
                id,
                match command {
                    Some(c) => Some(c@),
                    None => None,
                },
                r,
            ),
    {
        let username = match &self.user {
            Some(u) => u.username.clone(),
            None => {
                return Err(SessionError::NotAuthenticated);
            },
        };
        match self.channels.remove(&id) {
            Some(mut c) => {
                match &c.state {
                    ChannelState::Inactive => {
                        let pty = match &c.pty {
                            Some(p) => {
                                let (width, height) = match &c.size {
                                    Some(s) => (s.0, s.1),
                                    None => (DEFAULT_PTY_WIDTH, DEFAULT_PTY_HEIGHT),
                                };
                                Some(
                                    PtySpec {
                                        term: p.term.clone(),
                                        modes: copy_modes(&p.modes),
                                        width,
                                        height,
                                    },
                                )
                            },
                            None => None,
                        };
                        let sent_size = match &pty {
                            Some(p) => Some((p.width, p.height)),
                            None => None,
                        };
                        c.state = ChannelState::Attaching { sent_size };
                        self.channels.insert(id, c);
                        Ok(AttachCall { username, command, pty })
                    },
                    _ => {
                        self.channels.insert(id, c);
                        proof {
                            assert(self.channels@ =~= old(self).channels@);
                        }
                        Err(SessionError::AlreadyAttached)
                    },
                }
            },
            None => {
                proof {
                    assert(self.channels@ =~= old(self).channels@);
                }
                Err(SessionError::ChannelNotFound)
            },
        }
    }

    /// The client asked to run a command: the payload names it, in UTF-8. A
    /// payload that is not UTF-8 fails only this request. Otherwise the
    /// request takes the one attach path with the decoded command.
    pub fn exec_request(&mut self, id: u64, data: &[u8]) -> (r: Result<AttachCall, SessionError>)
        ensures
            vstd::utf8::valid_utf8(data@) ==> begin_attach_spec(
                *old(self),
                *final(self),
                id,
                Some(vstd::utf8::decode_utf8(data@)),
                r,
            ),
            !vstd::utf8::valid_utf8(data@) ==> {
                &&& final(self).channels@ == old(self).channels@
                &&& final(self).user == old(self).user
                &&& r matches Err(e) && e is BadCommandEncoding
            },
    {
        let bytes = vstd::slice::slice_to_vec(data);
        match string_from_utf8(bytes) {
            Some(command) => self.begin_attach(id, Some(command)),
            None => Err(SessionError::BadCommandEncoding),
        }
    }

    /// The client asked for an interactive shell: the one attach path, with
    /// no command.
    pub fn shell_request(&mut self, id: u64) -> (r: Result<AttachCall, SessionError>)
        ensures
            begin_attach_spec(*old(self), *final(self), id, None, r),
    {
        self.begin_attach(id, None)
    }

    /// The adapter attached the channel: record the container and exec ids
    /// and start the written-bytes history empty. If the terminal was resized
    /// while the attach was in flight, the recorded size is applied
    /// retroactively: the returned resize call must be forwarded.
    pub fn complete_attach(&mut self, id: u64, container_id: String, exec_id: String) -> (r: Result<
        Option<ResizeCall>,
        SessionError,
    >)
        ensures
            final(self).user == old(self).user,
            r is Ok <==> old(self).channels@.contains_key(id) && old(
                self,
            ).channels@[id].state is Attaching,
            match r {
                Ok(resize) => {
                    let c = old(self).channels@[id];
                    &&& map_updated_at(old(self).channels@, final(self).channels@, id)
                    &&& same_but_state(c, final(self).channels@[id])
                    &&& final(self).channels@[id].state matches ChannelState::Attached {
                        attachment,
                    } && attachment.container_id == container_id && attachment.exec_id == exec_id
                        && attachment.written@ == Seq::<u8>::empty()
                    &&& match resize {
                        Some(rc) => c.size matches Some(sz) && c.state->sent_size != Some(sz)
                            && rc.exec_id@ == exec_id@ && (rc.width, rc.height) == sz,
                        None => c.size matches Some(sz) ==> c.state->sent_size == Some(sz),
                    }
                },
                Err(e) => {
                    &&& final(self).channels@ == old(self).channels@
                    &&& (e is ChannelNotFound <==> !old(self).channels@.contains_key(id))
                    &&& (e is NotAttaching <==> old(self).channels@.contains_key(id) && !(old(
                        self,
                    ).channels@[id].state is Attaching))
                },
            },
    {
        match self.channels.remove(&id) {
            Some(mut c) => {
                match &c.state {
                    ChannelState::Attaching { sent_size } => {
                        let resize = match (&c.size, sent_size) {
                            (Some(sz), Some(sent)) => {
                                if sz.0 == sent.0 && sz.1 == sent.1 {
                                    None
                                } else {
                                    Some(
                                        ResizeCall {
                                            exec_id: exec_id.clone(),
                                            width: sz.0,
                                            height: sz.1,
                                        },
                                    )
                                }
                            },
                            (Some(sz), None) => Some(
                                ResizeCall { exec_id: exec_id.clone(), width: sz.0, height: sz.1 },
                            ),
                            (None, _) => None,
                        };
                        c.state = ChannelState::Attached {
                            attachment: Attachment {
                                container_id,
                                exec_id,
                                written: Ghost(Seq::empty()),
                            },
                        };
                        self.channels.insert(id, c);
                        Ok(resize)
                    },
                    _ => {
                        self.channels.insert(id, c);
                        Err(SessionError::NotAttaching)
                    },
                }
            },
            None => Err(SessionError::ChannelNotFound),
        }
    }

    /// The adapter could not attach the channel: the request failed, nothing
    /// was bound, and the channel returns to rest so the client may try
    /// again.
    pub fn abort_attach(&mut self, id: u64)
        ensures
            final(self).user == old(self).user,
            (old(self).channels@.contains_key(id) && old(
                self,
            ).channels@[id].state is Attaching) ==> {
                &&& map_updated_at(old(self).channels@, final(self).channels@, id)
                &&& same_but_state(old(self).channels@[id], final(self).channels@[id])
                &&& final(self).channels@[id].state is Inactive
            },
            !(old(self).channels@.contains_key(id) && old(
                self,
            ).channels@[id].state is Attaching) ==> final(self).channels@ == old(self).channels@,
    {
        match self.channels.remove(&id) {
            Some(mut c) => {
                match &c.state {
                    ChannelState::Attaching { .. } => {
                        c.state = ChannelState::Inactive;
                    },
                    _ => {},
                }
                self.channels.insert(id, c);
            },
            None => {},
        }
    }

    /// The channel closed: remove it from the map. If it held an attachment,
    /// hand back the teardown call for its exec process; teardown is
    /// best-effort and its errors are logged, never propagated, so that
    /// connection shutdown always proceeds. The user's container is never
    /// removed here.
    pub fn channel_close(&mut self, id: u64) -> (r: Option<DetachCall>)
        ensures
            final(self).user == old(self).user,
            final(self).channels@ =~= old(self).channels@.remove(id),
            match r {
                Some(dc) => old(self).channels@.contains_key(id) && (old(
                    self,
                ).channels@[id].state matches ChannelState::Attached { attachment }
                    && dc.exec_id@ == attachment.exec_id@),
                None => !(old(self).channels@.contains_key(id) && old(
                    self,
                ).channels@[id].state is Attached),
            },
    {
        match self.channels.remove(&id) {
            Some(c) => {
                match c.state {
                    ChannelState::Attached { attachment } => Some(
                        DetachCall { exec_id: attachment.exec_id },
                    ),
                    _ => None,
                }
            },
            None => None,
        }
    }

    /// The client sent end-of-file on the channel: same teardown as a close.
    pub fn channel_eof(&mut self, id: u64) -> (r: Option<DetachCall>)
        ensures
            final(self).user == old(self).user,
            final(self).channels@ =~= old(self).channels@.remove(id),
            match r {
                Some(dc) => old(self).channels@.contains_key(id) && (old(
                    self,
                ).channels@[id].state matches ChannelState::Attached { attachment }
                    && dc.exec_id@ == attachment.exec_id@),
                None => !(old(self).channels@.contains_key(id) && old(
                    self,
                ).channels@[id].state is Attached),
            },
    {
        self.channel_close(id)
    }
}

/// The concatenation of data-frame payloads, in arrival order.
pub open spec fn concat_frames(frames: Seq<Seq<u8>>) -> Seq<u8>
    decreases frames.len(),
{
    if frames.len() == 0 {
        Seq::empty()
    } else {
        frames[0] + concat_frames(frames.drop_first())
    }
}

/// The sink history after a sequence of data frames, each applied as `data`'s
/// contract says: the payload appended whole at the end.
pub open spec fn written_after(written: Seq<u8>, frames: Seq<Seq<u8>>) -> Seq<u8>
    decreases frames.len(),
{
    if frames.len() == 0 {
        written
    } else {
        written_after(written + frames[0], frames.drop_first())
    }
}

/// Law: the bytes an attached channel's input sink sees from a sequence of
/// data frames are exactly the concatenation of their payloads, in arrival
/// order — no interleaving, no reordering. `data` appends each frame's
/// payload whole at the end of the channel's written history; this lemma
/// sums those steps over any sequence of frames.
pub proof fn lemma_sink_bytes_are_frame_concat(written: Seq<u8>, frames: Seq<Seq<u8>>)
    ensures
        written_after(written, frames) == written + concat_frames(frames),
    decreases frames.len(),
{
    if frames.len() == 0 {
        assert(written + concat_frames(frames) =~= written);
    } else {
        lemma_sink_bytes_are_frame_concat(written + frames[0], frames.drop_first());
        assert((written + frames[0]) + concat_frames(frames.drop_first()) =~= written + (frames[0]
            + concat_frames(frames.drop_first())));
    }
}

/// Law: an exec request and a shell request take one attach path. For the
/// same session and channel, the two differ in nothing but the command the
/// attach call carries: same username, same pty parameters, and the channel
/// moves to the same attaching state.
pub proof fn lemma_exec_is_shell_plus_command(
    pre: SshSession,
    post1: SshSession,
    post2: SshSession,
    id: u64,
    cmd: Seq<char>,
    call1: AttachCall,
    call2: AttachCall,
)
    requires
        begin_attach_spec(pre, post1, id, Some(cmd), Ok(call1)),
        begin_attach_spec(pre, post2, id, None, Ok(call2)),
    ensures
        call1.username@ == call2.username@,
        call1.command matches Some(c) && c@ == cmd,
        call2.command is None,
        match (call1.pty, call2.pty) {
            (Some(p1), Some(p2)) => p1.term@ == p2.term@ && p1.modes@ == p2.modes@ && p1.width
                == p2.width && p1.height == p2.height,
            (None, None) => true,
            _ => false,
        },
        post1.channels@.dom() == post2.channels@.dom(),
        post1.channels@[id].state == post2.channels@[id].state,
        post1.channels@[id].state matches ChannelState::Attaching { sent_size } && sent_size
            == attach_sent_size(pre.channels@[id]),
{
    assert(post1.channels@.dom() =~= post2.channels@.dom());
}

/// Copies a terminal mode block.
fn copy_modes(modes: &Vec<(u8, u32)>) -> (r: Vec<(u8, u32)>)
    ensures
        r@ == modes@,
{
    let mut r: Vec<(u8, u32)> = Vec::new();
    let mut i: usize = 0;
    while i < modes.len()
        invariant
            i <= modes@.len(),
            r@ == modes@.take(i as int),
        decreases modes@.len() - i,
    {
        let m = modes[i];
        r.push(m);
        proof {
            assert(modes@.take(i as int).push(modes@[i as int]) =~= modes@.take(i as int + 1));
        }
        i += 1;
    }
    proof {
        assert(modes@.take(modes@.len() as int) =~= modes@);
    }
    r
}

} // verus!
