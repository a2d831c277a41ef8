//! End-to-end scenarios: the session machine, the attach flow and the bridge
//! driven against a small in-memory stand-in for the container engine.

use std::collections::HashMap;

use dawdle_ssh::adapter::detach_plan;
use dawdle_ssh::adapter::AttachFlow;
use dawdle_ssh::adapter::AttachPhase;
use dawdle_ssh::adapter::ContainerEntry;
use dawdle_ssh::adapter::DetachAction;
use dawdle_ssh::adapter::EngineCall;
use dawdle_ssh::adapter::EngineReply;
use dawdle_ssh::adapter::ExecInspect;
use dawdle_ssh::bridge::Bridge;
use dawdle_ssh::bridge::BridgeAction;
use dawdle_ssh::bridge::BRIDGE_EXIT_STATUS;
use dawdle_ssh::session::SshSession;
use dawdle_ssh::session::UserLookup;

use ssh_key::public::Ed25519PublicKey;
use ssh_key::public::KeyData;
use ssh_key::PublicKey;

/// A container engine in memory: containers keyed by name, exec processes
/// keyed by id, and a record of every resize and kill.
#[derive(Default)]
struct FakeEngine {
    containers: HashMap<String, String>,
    execs: HashMap<String, FakeExec>,
    next_id: u32,
    creates: u32,
    resizes: Vec<(String, u16, u16)>,
    kills: Vec<String>,
    last_exec_workdir: String,
    last_exec_argv: Vec<String>,
}

struct FakeExec {
    container_id: String,
    pid: u64,
    running: bool,
}

impl FakeEngine {
    fn answer(&mut self, call: EngineCall) -> EngineReply {
        match call {
            EngineCall::ListContainers => {
                let entries = self
                    .containers
                    .iter()
                    .map(|(name, id)| ContainerEntry {
                        id: id.clone(),
                        names: vec![format!("/{}", name)],
                    })
                    .collect();
                EngineReply::Containers { entries }
            },
            EngineCall::CreateContainer { config } => {
                if self.containers.contains_key(&config.name) {
                    EngineReply::NameConflict
                } else {
                    self.next_id += 1;
                    self.creates += 1;
                    let id = format!("container-{}", self.next_id);
                    self.containers.insert(config.name, id.clone());
                    EngineReply::Created { container_id: id }
                }
            },
            EngineCall::StartContainer { .. } => EngineReply::Started,
            EngineCall::CreateExec { container_id, config } => {
                self.next_id += 1;
                let id = format!("exec-{}", self.next_id);
                self.last_exec_workdir = config.working_dir.clone();
                self.last_exec_argv = config.argv.clone();
                self.execs.insert(
                    id.clone(),
                    FakeExec { container_id, pid: 4000 + self.next_id as u64, running: false },
                );
                EngineReply::ExecCreated { exec_id: id }
            },
            EngineCall::StartExec { exec_id, .. } => {
                self.execs.get_mut(&exec_id).unwrap().running = true;
                EngineReply::ExecStarted
            },
            EngineCall::ResizeExec { exec_id, width, height } => {
                self.resizes.push((exec_id, width, height));
                EngineReply::Resized
            },
        }
    }

    fn inspect(&self, exec_id: &str) -> ExecInspect {
        match self.execs.get(exec_id) {
            Some(e) => ExecInspect {
                running: e.running,
                pid: Some(e.pid),
                container_id: Some(e.container_id.clone()),
            },
            None => ExecInspect { running: false, pid: None, container_id: None },
        }
    }

    /// Performs a teardown decision: runs the kill inside the container.
    fn perform(&mut self, action: DetachAction) {
        if let DetachAction::Kill { argv, .. } = action {
            assert_eq!(&argv[..2], &["/bin/kill", "-9"]);
            let pid: u64 = argv[2].parse().unwrap();
            for e in self.execs.values_mut() {
                if e.pid == pid {
                    e.running = false;
                }
            }
            self.kills.push(argv[2].clone());
        }
    }

    fn drive(&mut self, mut flow: AttachFlow) -> AttachFlow {
        loop {
            match flow.phase {
                AttachPhase::Done { .. } | AttachPhase::Failed => return flow,
                _ => {
                    let reply = self.answer(flow.next_call());
                    flow = flow.on_reply(reply);
                },
            }
        }
    }
}

fn ed25519_openssh(bytes: [u8; 32]) -> String {
    PublicKey::new(KeyData::Ed25519(Ed25519PublicKey(bytes)), "test").to_openssh().unwrap()
}

fn done_ids(flow: &AttachFlow) -> (String, String) {
    match &flow.phase {
        AttachPhase::Done { container_id, exec_id } => (container_id.clone(), exec_id.clone()),
        _ => panic!("attach did not complete"),
    }
}

/// A user connects with a registered key, gets a pty and a shell, resizes,
/// and disconnects; the container survives, the exec process does not.
#[test]
fn interactive_shell_session_for_alice() {
    let mut engine = FakeEngine::default();
    let mut session = SshSession::new();

    // Authentication: first a directory fetch, then the offered key.
    assert!(matches!(session.user_lookup("alice"), UserLookup::Fetch));
    session
        .bind_user(
            String::from("alice"),
            vec![(String::from("laptop"), ed25519_openssh([7; 32]))],
        )
        .unwrap();
    let offered = vec![7u8; 32];
    session.auth_publickey_offered("alice", true, &offered).unwrap();
    session.auth_publickey("alice").unwrap();

    // Channel setup: open, pty 80x24 xterm, shell.
    session.channel_open_session(1);
    session.pty_request(1, String::from("xterm"), 80, 24, vec![]);
    let call = session.shell_request(1).unwrap();
    assert_eq!(call.username, "alice");
    assert!(call.command.is_none());

    // The adapter attaches: find (nothing), create, start, exec, resize.
    let flow = engine.drive(AttachFlow::new(call, String::from("/srv")));
    let (container_id, exec_id) = done_ids(&flow);
    assert_eq!(engine.creates, 1);
    assert_eq!(engine.containers.get("dawdle-home-alice"), Some(&container_id));
    assert_eq!(engine.last_exec_workdir, "/home/alice");
    assert_eq!(engine.last_exec_argv, vec!["/bin/zsh", "-l", "-i"]);
    assert!(engine.execs.get(&exec_id).unwrap().running);
    // The recorded pty size was applied once at attach time.
    assert_eq!(engine.resizes, vec![(exec_id.clone(), 80, 24)]);

    session.complete_attach(1, container_id.clone(), exec_id.clone()).unwrap();

    // A window change triggers exactly one resize with the new size.
    let rc = session.window_change_request(1, 120, 40).unwrap().unwrap();
    engine.resizes.push((rc.exec_id.clone(), rc.width, rc.height));
    let with_new_size: Vec<_> =
        engine.resizes.iter().filter(|r| r.1 == 120 && r.2 == 40).collect();
    assert_eq!(with_new_size.len(), 1);
    assert_eq!(with_new_size[0].0, exec_id);

    // Close: exactly one kill of that exec process; the container remains.
    let dc = session.channel_close(1).unwrap();
    assert_eq!(dc.exec_id, exec_id);
    let action = detach_plan(engine.inspect(&dc.exec_id));
    engine.perform(action);
    assert_eq!(engine.kills.len(), 1);
    assert!(!engine.execs.get(&exec_id).unwrap().running);
    assert_eq!(engine.containers.get("dawdle-home-alice"), Some(&container_id));
}

/// A second session for the same user reuses the container with a fresh
/// exec process.
#[test]
fn second_session_reuses_the_container() {
    let mut engine = FakeEngine::default();
    let call = |cmd: Option<&str>| dawdle_ssh::session::AttachCall {
        username: String::from("bob"),
        command: cmd.map(String::from),
        pty: None,
    };
    let f1 = engine.drive(AttachFlow::new(call(None), String::from("/srv")));
    let f2 = engine.drive(AttachFlow::new(call(None), String::from("/srv")));
    let (c1, e1) = done_ids(&f1);
    let (c2, e2) = done_ids(&f2);
    assert_eq!(engine.creates, 1);
    assert_eq!(c1, c2);
    assert_ne!(e1, e2);
}

/// Two racing first attaches for a fresh user: the loser's name conflict is
/// treated as success, both converge on one container.
#[test]
fn concurrent_first_attaches_converge() {
    let mut engine = FakeEngine::default();
    let call = |_u: ()| dawdle_ssh::session::AttachCall {
        username: String::from("carol"),
        command: None,
        pty: None,
    };
    let mut f1 = AttachFlow::new(call(()), String::from("/srv"));
    let mut f2 = AttachFlow::new(call(()), String::from("/srv"));

    // Both list before either creates: both decide to create.
    let r1 = engine.answer(f1.next_call());
    f1 = f1.on_reply(r1);
    let r2 = engine.answer(f2.next_call());
    f2 = f2.on_reply(r2);
    assert!(matches!(f1.phase, AttachPhase::Creating));
    assert!(matches!(f2.phase, AttachPhase::Creating));

    // The first create wins; the second hits the name conflict and finds
    // the winner's container instead of failing.
    let r1 = engine.answer(f1.next_call());
    f1 = f1.on_reply(r1);
    let r2 = engine.answer(f2.next_call());
    f2 = f2.on_reply(r2);
    assert!(matches!(f2.phase, AttachPhase::Find));

    let f1 = engine.drive(f1);
    let f2 = engine.drive(f2);
    let (c1, _) = done_ids(&f1);
    let (c2, _) = done_ids(&f2);
    assert_eq!(c1, c2);
    assert_eq!(engine.creates, 1);
    assert_eq!(engine.containers.len(), 1);
}

/// An exec request behaves as a shell request with the injected
/// non-interactive command; the bridge forwards the output and closes.
#[test]
fn exec_request_echo_hi() {
    let mut engine = FakeEngine::default();
    let mut session = SshSession::new();
    session
        .bind_user(
            String::from("alice"),
            vec![(String::from("k"), ed25519_openssh([7; 32]))],
        )
        .unwrap();
    session.channel_open_session(1);
    let call = session.exec_request(1, b"echo hi").unwrap();
    assert_eq!(call.command.as_deref(), Some("echo hi"));

    let flow = engine.drive(AttachFlow::new(call, String::from("/srv")));
    let (container_id, exec_id) = done_ids(&flow);
    assert_eq!(engine.last_exec_argv, vec!["/bin/bash", "-c", "set -e; echo hi"]);
    session.complete_attach(1, container_id, exec_id).unwrap();

    // The bridge forwards the process's output, then reports the fixed exit
    // status and closes.
    let mut bridge = Bridge::new(1);
    assert!(matches!(bridge.on_chunk(b"hi\n"), BridgeAction::Forward));
    assert!(matches!(bridge.on_chunk(b""), BridgeAction::Skip));
    assert!(matches!(bridge.on_stream_end(), BridgeAction::Finish));
    assert_eq!(BRIDGE_EXIT_STATUS, 0);
}

/// A send failure ends the bridge at once; teardown runs independently.
#[test]
fn bridge_stops_when_the_client_disconnects() {
    let mut bridge = Bridge::new(3);
    assert!(matches!(bridge.on_chunk(b"partial"), BridgeAction::Forward));
    assert!(matches!(bridge.on_send_failure(), BridgeAction::Stop));
}

/// An engine failure fails only the attach; the channel may try again.
#[test]
fn engine_failure_fails_the_attach() {
    let call = dawdle_ssh::session::AttachCall {
        username: String::from("dave"),
        command: None,
        pty: None,
    };
    let flow = AttachFlow::new(call, String::from("/srv"));
    let flow = flow.on_reply(EngineReply::Failure);
    assert!(matches!(flow.phase, AttachPhase::Failed));
}
