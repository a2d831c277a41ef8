use dawdle_ssh::session::AuthDecision;
use dawdle_ssh::session::ChannelState;
use dawdle_ssh::session::DataOutcome;
use dawdle_ssh::session::SessionError;
use dawdle_ssh::session::SshSession;
use dawdle_ssh::session::SubsystemDecision;
use dawdle_ssh::session::UserLookup;

use argon2::PasswordHasher;
use ssh_key::public::Ed25519PublicKey;
use ssh_key::public::KeyData;
use ssh_key::public::OpaquePublicKey;
use ssh_key::PublicKey;

/// An OpenSSH-encoded Ed25519 public key over the given raw bytes.
fn ed25519_openssh(bytes: [u8; 32], comment: &str) -> String {
    PublicKey::new(KeyData::Ed25519(Ed25519PublicKey(bytes)), comment).to_openssh().unwrap()
}

fn bound_session(username: &str, key_bytes: [u8; 32]) -> SshSession {
    let mut s = SshSession::new();
    assert!(matches!(s.user_lookup(username), UserLookup::Fetch));
    let keys = vec![(String::from("laptop"), ed25519_openssh(key_bytes, "laptop"))];
    s.bind_user(String::from(username), keys).unwrap();
    s
}

#[test]
fn channel_open_is_always_accepted() {
    let mut s = SshSession::new();
    assert!(s.channel_open_session(1));
    assert!(s.channel_open_session(2));
}

#[test]
fn env_request_collects_pairs_and_ignores_missing_channels() {
    let mut s = SshSession::new();
    s.channel_open_session(1);
    s.env_request(1, String::from("LANG"), String::from("en_US.UTF-8"));
    s.env_request(7, String::from("LANG"), String::from("C")); // no channel 7: ignored
    s.env_request(1, String::from("EDITOR"), String::from("vi"));
    let c = s.channels.get(&1).unwrap();
    assert_eq!(c.env.len(), 2);
    assert_eq!(c.env[0], (String::from("LANG"), String::from("en_US.UTF-8")));
    assert_eq!(c.env[1], (String::from("EDITOR"), String::from("vi")));
    assert!(s.channels.get(&7).is_none());
}

#[test]
fn pty_request_records_terminal() {
    let mut s = SshSession::new();
    s.channel_open_session(1);
    s.pty_request(1, String::from("xterm"), 80, 24, vec![(53, 1)]);
    let c = s.channels.get(&1).unwrap();
    let p = c.pty.as_ref().unwrap();
    assert_eq!(p.term, "xterm");
    assert_eq!(p.modes, vec![(53, 1)]);
    assert_eq!(c.size, Some((80, 24)));
}

#[test]
fn window_change_before_attach_only_records_state() {
    let mut s = bound_session("alice", [1; 32]);
    s.channel_open_session(1);
    // No pty, nothing attached: the resize is recorded and nothing errors.
    let r = s.window_change_request(1, 120, 40).unwrap();
    assert!(r.is_none());
    assert_eq!(s.channels.get(&1).unwrap().size, Some((120, 40)));
    // A missing channel fails only the request.
    assert!(matches!(
        s.window_change_request(9, 1, 1),
        Err(SessionError::ChannelNotFound)
    ));
}

#[test]
fn recorded_size_is_applied_at_attach_time() {
    let mut s = bound_session("alice", [1; 32]);
    s.channel_open_session(1);
    s.pty_request(1, String::from("xterm"), 80, 24, vec![]);
    // The client resizes before anything is attached.
    assert!(s.window_change_request(1, 100, 50).unwrap().is_none());
    let call = s.shell_request(1).unwrap();
    let pty = call.pty.unwrap();
    assert_eq!((pty.width, pty.height), (100, 50));
}

#[test]
fn attach_defaults_to_eighty_by_twentyfour() {
    let mut s = bound_session("alice", [1; 32]);
    s.channel_open_session(1);
    s.pty_request(1, String::from("xterm"), 0, 0, vec![]);
    // A pty whose size was reported as zero stays recorded as zero; only a
    // channel with a pty but no recorded size at all falls back. Build that
    // state through a fresh channel with no pty: no pty spec is sent.
    let call = s.shell_request(1).unwrap();
    assert!(call.pty.is_some());
    let mut s2 = bound_session("bob", [2; 32]);
    s2.channel_open_session(1);
    let call2 = s2.shell_request(1).unwrap();
    assert!(call2.pty.is_none());
}

#[test]
fn shell_request_needs_authentication() {
    let mut s = SshSession::new();
    s.channel_open_session(1);
    assert!(matches!(s.shell_request(1), Err(SessionError::NotAuthenticated)));
}

#[test]
fn second_attach_on_a_channel_is_rejected() {
    let mut s = bound_session("alice", [1; 32]);
    s.channel_open_session(1);
    let _ = s.shell_request(1).unwrap();
    assert!(matches!(s.shell_request(1), Err(SessionError::AlreadyAttached)));
    s.complete_attach(1, String::from("c1"), String::from("e1")).unwrap();
    assert!(matches!(s.shell_request(1), Err(SessionError::AlreadyAttached)));
    assert!(matches!(s.exec_request(1, b"ls"), Err(SessionError::AlreadyAttached)));
}

#[test]
fn failed_attach_lets_the_client_try_again() {
    let mut s = bound_session("alice", [1; 32]);
    s.channel_open_session(1);
    let _ = s.shell_request(1).unwrap();
    s.abort_attach(1);
    assert!(s.shell_request(1).is_ok());
}

#[test]
fn exec_request_rejects_bad_encoding() {
    let mut s = bound_session("alice", [1; 32]);
    s.channel_open_session(1);
    let r = s.exec_request(1, &[0xff, 0xfe, b'x']);
    assert!(matches!(r, Err(SessionError::BadCommandEncoding)));
    // The channel is untouched: a clean command still attaches.
    assert!(s.exec_request(1, b"echo hi").is_ok());
}

#[test]
fn exec_request_carries_the_decoded_command() {
    let mut s = bound_session("alice", [1; 32]);
    s.channel_open_session(1);
    let call = s.exec_request(1, b"echo hi").unwrap();
    assert_eq!(call.username, "alice");
    assert_eq!(call.command.as_deref(), Some("echo hi"));
    assert!(call.pty.is_none());
}

#[test]
fn data_reaches_only_attached_channels() {
    let mut s = bound_session("alice", [1; 32]);
    s.channel_open_session(1);
    assert!(matches!(s.data(1, b"keys"), DataOutcome::Dropped));
    assert!(matches!(s.data(9, b"keys"), DataOutcome::Dropped));
    let _ = s.shell_request(1).unwrap();
    assert!(matches!(s.data(1, b"keys"), DataOutcome::Dropped));
    s.complete_attach(1, String::from("c1"), String::from("e1")).unwrap();
    match s.data(1, b"ls\n") {
        DataOutcome::Write { exec_id } => assert_eq!(exec_id, "e1"),
        DataOutcome::Dropped => panic!("data to an attached channel was dropped"),
    }
}

#[test]
fn window_change_after_attach_forwards_a_resize() {
    let mut s = bound_session("alice", [1; 32]);
    s.channel_open_session(1);
    s.pty_request(1, String::from("xterm"), 80, 24, vec![]);
    let _ = s.shell_request(1).unwrap();
    s.complete_attach(1, String::from("c1"), String::from("e1")).unwrap();
    let rc = s.window_change_request(1, 120, 40).unwrap().unwrap();
    assert_eq!(rc.exec_id, "e1");
    assert_eq!((rc.width, rc.height), (120, 40));
}

#[test]
fn resize_during_attach_is_applied_retroactively() {
    let mut s = bound_session("alice", [1; 32]);
    s.channel_open_session(1);
    s.pty_request(1, String::from("xterm"), 80, 24, vec![]);
    let _ = s.shell_request(1).unwrap();
    // The attach is in flight with 80x24 when the client resizes.
    assert!(s.window_change_request(1, 132, 43).unwrap().is_none());
    let rc = s.complete_attach(1, String::from("c1"), String::from("e1")).unwrap().unwrap();
    assert_eq!(rc.exec_id, "e1");
    assert_eq!((rc.width, rc.height), (132, 43));
    // Without an interim resize no retroactive call is needed.
    let mut s2 = bound_session("bob", [2; 32]);
    s2.channel_open_session(1);
    s2.pty_request(1, String::from("xterm"), 80, 24, vec![]);
    let _ = s2.shell_request(1).unwrap();
    assert!(s2.complete_attach(1, String::from("c1"), String::from("e2")).unwrap().is_none());
}

#[test]
fn close_and_eof_remove_the_channel_and_detach() {
    let mut s = bound_session("alice", [1; 32]);
    s.channel_open_session(1);
    let _ = s.shell_request(1).unwrap();
    s.complete_attach(1, String::from("c1"), String::from("e1")).unwrap();
    let dc = s.channel_close(1).unwrap();
    assert_eq!(dc.exec_id, "e1");
    assert!(s.channels.get(&1).is_none());
    // An unattached channel needs no teardown call.
    s.channel_open_session(2);
    assert!(s.channel_eof(2).is_none());
    assert!(s.channels.get(&2).is_none());
    // A close on an unknown channel is a quiet no-op.
    assert!(s.channel_close(3).is_none());
}

#[test]
fn subsystem_request_hands_off_only_file_transfer() {
    let mut s = SshSession::new();
    s.channel_open_session(1);
    s.channel_open_session(2);
    assert!(matches!(
        s.subsystem_request(1, "sftp"),
        Ok(SubsystemDecision::HandoffFileTransfer)
    ));
    assert!(s.channels.get(&1).is_none());
    assert!(matches!(s.subsystem_request(2, "x11"), Ok(SubsystemDecision::Reject)));
    assert!(s.channels.get(&2).is_some());
    assert!(matches!(
        s.subsystem_request(9, "sftp"),
        Err(SessionError::ChannelNotFound)
    ));
}

#[test]
fn offered_key_must_match_a_registered_one() {
    let s = bound_session("alice", [5; 32]);
    let offered = vec![5u8; 32];
    assert!(matches!(
        s.auth_publickey_offered("alice", true, &offered),
        Ok(AuthDecision::Accept)
    ));
    let other = vec![6u8; 32];
    assert!(matches!(
        s.auth_publickey_offered("alice", true, &other),
        Ok(AuthDecision::Reject)
    ));
}

#[test]
fn unsupported_algorithm_is_rejected_without_a_second_lookup() {
    let s = bound_session("alice", [5; 32]);
    // The identity is cached: no directory fetch is needed.
    assert!(matches!(s.user_lookup("alice"), UserLookup::Cached));
    // A key of any other algorithm is rejected before comparison, even if
    // its bytes coincide with a registered key's.
    assert!(matches!(
        s.auth_publickey_offered("alice", false, &vec![5u8; 32]),
        Ok(AuthDecision::Reject)
    ));
    // Still cached afterwards: rejecting the offer looked nothing up.
    assert!(matches!(s.user_lookup("alice"), UserLookup::Cached));
}

#[test]
fn a_second_username_on_one_connection_is_a_hard_failure() {
    let s = bound_session("alice", [5; 32]);
    assert!(matches!(s.user_lookup("mallory"), UserLookup::Mismatch));
    assert!(matches!(
        s.auth_publickey_offered("mallory", true, &vec![5u8; 32]),
        Err(SessionError::UserMismatch)
    ));
    assert!(matches!(s.auth_publickey("mallory"), Err(SessionError::UserMismatch)));
}

#[test]
fn verified_signature_is_accepted_unconditionally() {
    let s = bound_session("alice", [5; 32]);
    assert!(matches!(s.auth_publickey("alice"), Ok(AuthDecision::Accept)));
    let fresh = SshSession::new();
    assert!(matches!(fresh.auth_publickey("alice"), Err(SessionError::NotAuthenticated)));
}

#[test]
fn bind_user_rejects_unparsable_registered_keys() {
    let mut s = SshSession::new();
    let keys = vec![(String::from("bad"), String::from("not a key at all"))];
    assert!(matches!(
        s.bind_user(String::from("alice"), keys),
        Err(SessionError::UnsupportedKey)
    ));
    // Nothing was bound: a later bind may still happen.
    assert!(matches!(s.user_lookup("alice"), UserLookup::Fetch));
}

#[test]
fn bind_user_rejects_non_ed25519_registered_keys() {
    let algorithm = ssh_key::Algorithm::new("ssh-test@example.com").unwrap();
    let opaque = PublicKey::new(
        KeyData::Other(OpaquePublicKey::new(vec![1, 2, 3, 4], algorithm)),
        "odd",
    );
    let text = opaque.to_openssh().unwrap();
    let mut s = SshSession::new();
    let keys = vec![
        (String::from("good"), ed25519_openssh([9; 32], "good")),
        (String::from("odd"), text),
    ];
    assert!(matches!(
        s.bind_user(String::from("alice"), keys),
        Err(SessionError::UnsupportedKey)
    ));
}

#[test]
fn valid_public_key_accepts_only_ed25519() {
    assert!(dawdle_ssh::keys::valid_public_key(&ed25519_openssh([3; 32], "k")));
    assert!(!dawdle_ssh::keys::valid_public_key("garbage"));
}

#[test]
fn password_flow_is_opt_in_and_checks_the_hash() {
    let hash = argon2::Argon2::default()
        .hash_password_with_salt(b"hunter2", b"a-test-salt-0001")
        .unwrap()
        .to_string();

    let mut s = SshSession::new();
    // The identity did not opt in: rejected whatever the password.
    assert!(matches!(
        s.auth_password(String::from("alice"), "hunter2", &hash, false),
        Ok(AuthDecision::Reject)
    ));
    assert!(matches!(s.user_lookup("alice"), UserLookup::Fetch));
    // Wrong password: rejected, nothing bound.
    assert!(matches!(
        s.auth_password(String::from("alice"), "wrong", &hash, true),
        Ok(AuthDecision::Reject)
    ));
    // Right password: accepted and the identity is bound.
    assert!(matches!(
        s.auth_password(String::from("alice"), "hunter2", &hash, true),
        Ok(AuthDecision::Accept)
    ));
    assert!(matches!(s.user_lookup("alice"), UserLookup::Cached));
    // A different username on the same connection is a hard failure.
    assert!(matches!(
        s.auth_password(String::from("mallory"), "hunter2", &hash, true),
        Err(SessionError::UserMismatch)
    ));
}

#[test]
fn malformed_password_hash_rejects() {
    let mut s = SshSession::new();
    assert!(matches!(
        s.auth_password(String::from("alice"), "pw", "not-a-phc-hash", true),
        Ok(AuthDecision::Reject)
    ));
}

#[test]
fn data_frames_write_in_arrival_order() {
    let mut s = bound_session("alice", [1; 32]);
    s.channel_open_session(1);
    let _ = s.shell_request(1).unwrap();
    s.complete_attach(1, String::from("c1"), String::from("e1")).unwrap();
    // Each frame is handed to the sink whole, in order; the sink sees the
    // concatenation. The frames themselves carry the bytes.
    for frame in [&b"ec"[..], &b"ho"[..], &b" hi\n"[..]] {
        match s.data(1, frame) {
            DataOutcome::Write { exec_id } => assert_eq!(exec_id, "e1"),
            DataOutcome::Dropped => panic!("frame dropped"),
        }
    }
    match s.channels.get(&1).unwrap().state {
        ChannelState::Attached { .. } => {},
        _ => panic!("channel lost its attachment"),
    }
}
