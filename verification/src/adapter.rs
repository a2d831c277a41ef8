//! The container-runtime adapter: planning of engine calls.
//!
//! Attaching a channel to a process inside the user's container takes a
//! short conversation with the container engine: list (find the container by
//! its deterministic name), create it if absent, start it idempotently,
//! create an exec process, start it, and resize its terminal if a pty size
//! was given. The engine calls are asynchronous and run outside this crate;
//! this module holds the verified side of the conversation: what each call
//! must say, and how each answer moves the flow forward. A name collision on
//! create is treated as success — the concurrent creator won — by going back
//! to the find step.

use vstd::prelude::*;

verus! {

use crate::session::AttachCall;
use crate::text::{dec_string_of, str_eq, u64_to_dec_string};
use crate::validate::valid_username;
use vstd::string::StringExecFns;

/// The fixed name prefix of per-user containers.
pub open spec fn name_prefix() -> Seq<char> {
    "dawdle-home-"@
}

/// The deterministic container name for a username.
pub open spec fn container_name_of(user: Seq<char>) -> Seq<char> {
    name_prefix() + user
}

/// The name under which the engine lists a container: a leading slash.
pub open spec fn listed_name_of(name: Seq<char>) -> Seq<char> {
    seq!['/'] + name
}

/// Builds the deterministic container name for `user`.
pub fn container_name(user: &str) -> (r: String)
    ensures
        r@ == container_name_of(user@),
{
    proof {
        reveal_strlit("dawdle-home-");
    }
    let mut s = String::from_str("dawdle-home-");
    s.append(user);
    s
}

/// One container as the engine lists it: its id and its names, each with a
/// leading slash.
pub struct ContainerEntry {
    pub id: String,
    pub names: Vec<String>,
}

/// Entry `e` is listed under `listed`.
pub open spec fn entry_matches(e: ContainerEntry, listed: Seq<char>) -> bool {
    exists|j: int| 0 <= j < e.names@.len() && #[trigger] e.names@[j]@ == listed
}

/// The first entry listed under `listed`, if any.
pub open spec fn match_index(entries: Seq<ContainerEntry>, listed: Seq<char>) -> Option<int>
    decreases entries.len(),
{
    if entries.len() == 0 {
        None
    } else if entry_matches(entries[0], listed) {
        Some(0)
    } else {
        match match_index(entries.drop_first(), listed) {
            Some(i) => Some(i + 1),
            None => None,
        }
    }
}

/// The id of the user's container among the listed entries: the first entry
/// listed under the slash-prefixed deterministic name. At most one entry can
/// match, since the engine holds at most one container per name.
pub fn select_container(entries: &Vec<ContainerEntry>, user: &str) -> (r: Option<String>)
    ensures
        r is Some <==> match_index(entries@, listed_name_of(container_name_of(user@))) is Some,
        r matches Some(id) ==> (match match_index(
            entries@,
            listed_name_of(container_name_of(user@)),
        ) {
            Some(i) => id == entries@[i].id,
            None => false,
        }),
{
    let mut pattern = String::from_str("/");
    proof {
        reveal_strlit("/");
        assert(pattern@ =~= seq!['/']);
    }
    let name = container_name(user);
    pattern.append(name.as_str());
    let ghost listed = listed_name_of(container_name_of(user@));
    proof {
        assert(pattern@ == listed);
    }
    let mut i: usize = 0;
    while i < entries.len()
        invariant
            listed == listed_name_of(container_name_of(user@)),
            pattern@ == listed,
            i <= entries@.len(),
            forall|k: int| 0 <= k < i ==> !entry_matches(#[trigger] entries@[k], listed),
        decreases entries@.len() - i,
    {
        let entry = &entries[i];
        let mut j: usize = 0;
        while j < entry.names.len()
            invariant
                listed == listed_name_of(container_name_of(user@)),
                pattern@ == listed,
                0 <= i < entries@.len(),
                entry == entries@[i as int],
                forall|k: int| 0 <= k < i ==> !entry_matches(#[trigger] entries@[k], listed),
                j <= entry.names@.len(),
                forall|k: int| 0 <= k < j ==> #[trigger] entry.names@[k]@ != listed,
            decreases entry.names@.len() - j,
        {
            if str_eq(entry.names[j].as_str(), pattern.as_str()) {
                proof {
                    assert(entry_matches(entries@[i as int], listed));
                    lemma_match_index_first(entries@, listed, i as int);
                    assert(match_index(entries@, listed) == Some(i as int));
                }
                let id = entry.id.clone();
                proof {
                    assert(id == entries@[i as int].id);
                }
                return Some(id);
            }
            j += 1;
        }
        proof {
            assert(!entry_matches(entries@[i as int], listed));
            lemma_match_index_skips(entries@, listed, i as int);
        }
        i += 1;
    }
    proof {
        lemma_match_index_some(entries@, listed);
    }
    None
}

/// If no entry below `i` matches and entry `i` does, the first match is `i`.
proof fn lemma_match_index_first(entries: Seq<ContainerEntry>, listed: Seq<char>, i: int)
    requires
        0 <= i < entries.len(),
        entry_matches(entries[i], listed),
        forall|k: int| 0 <= k < i ==> !entry_matches(#[trigger] entries[k], listed),
    ensures
        match_index(entries, listed) == Some(i),
    decreases i,
{
    if i == 0 {
    } else {
        assert(entries.drop_first()[i - 1] == entries[i]);
        assert(forall|k: int|
            0 <= k < i - 1 ==> #[trigger] entries.drop_first()[k] == entries[k + 1]);
        lemma_match_index_first(entries.drop_first(), listed, i - 1);
    }
}

/// If no entry up to and including `i` matches, the first match lies beyond.
proof fn lemma_match_index_skips(entries: Seq<ContainerEntry>, listed: Seq<char>, i: int)
    requires
        0 <= i < entries.len(),
        forall|k: int| 0 <= k <= i ==> !entry_matches(#[trigger] entries[k], listed),
    ensures
        match_index(entries, listed) matches Some(k) ==> k > i,
    decreases i,
{
    if entries.len() > 0 && !entry_matches(entries[0], listed) {
        lemma_match_index_some(entries.drop_first(), listed);
        if i > 0 {
            assert(forall|k: int|
                0 <= k <= i - 1 ==> #[trigger] entries.drop_first()[k] == entries[k + 1]);
            lemma_match_index_skips(entries.drop_first(), listed, i - 1);
        }
    }
}

/// A first match, where there is one, is a real match.
pub proof fn lemma_match_index_some(entries: Seq<ContainerEntry>, listed: Seq<char>)
    ensures
        match_index(entries, listed) matches Some(i) ==> 0 <= i < entries.len() && entry_matches(
            entries[i],
            listed,
        ),
    decreases entries.len(),
{
    if entries.len() > 0 && !entry_matches(entries[0], listed) {
        lemma_match_index_some(entries.drop_first(), listed);
        match match_index(entries.drop_first(), listed) {
            Some(k) => {
                assert(entries.drop_first()[k] == entries[k + 1]);
            },
            None => {},
        }
    }
}

/// Where some entry matches, there is a first match.
pub proof fn lemma_match_index_exists(entries: Seq<ContainerEntry>, listed: Seq<char>)
    ensures
        match_index(entries, listed) is None ==> forall|i: int|
            0 <= i < entries.len() ==> !entry_matches(#[trigger] entries[i], listed),
    decreases entries.len(),
{
    if entries.len() > 0 && !entry_matches(entries[0], listed) {
        lemma_match_index_exists(entries.drop_first(), listed);
        if match_index(entries, listed) is None {
            assert forall|i: int|
                0 <= i < entries.len() implies !entry_matches(#[trigger] entries[i], listed) by {
                if i > 0 {
                    assert(entries.drop_first()[i - 1] == entries[i]);
                }
            }
        }
    }
}

/// The sandbox image the engine runs for every user.
pub open spec fn image_ref() -> Seq<char> {
    "ghcr.io/dawdlestudios/container:latest"@
}

/// The fixed hostname set inside every container.
pub open spec fn sandbox_hostname() -> Seq<char> {
    "dawdle.space"@
}

/// The identifying environment variable of a user's container.
pub open spec fn user_env_of(user: Seq<char>) -> Seq<char> {
    "DAWDLE_USER="@ + user
}

/// The terminal environment handed to every exec process.
pub open spec fn term_env() -> Seq<char> {
    "TERM=xterm-256color"@
}

/// The user's home directory inside the container.
pub open spec fn home_dir_of(user: Seq<char>) -> Seq<char> {
    "/home/"@ + user
}

/// The host path bound read-write onto the user's home directory.
pub open spec fn home_source_of(cwd: Seq<char>, user: Seq<char>) -> Seq<char> {
    cwd + "/.files/home/"@ + user
}

/// The host path of the shared binaries directory, bound read-only.
pub open spec fn bin_source_of(cwd: Seq<char>) -> Seq<char> {
    cwd + "/.files/bin"@
}

/// Where the shared binaries directory appears inside the container.
pub open spec fn bin_target() -> Seq<char> {
    "/usr/local/dawdle/bin"@
}

/// A non-interactive command line, wrapped so that failures abort early.
pub open spec fn wrapped_command_of(cmd: Seq<char>) -> Seq<char> {
    "set -e; "@ + cmd
}

/// The process run for an interactive request: a login shell.
pub open spec fn interactive_argv() -> Seq<Seq<char>> {
    seq!["/bin/zsh"@, "-l"@, "-i"@]
}

/// An attach with no command, or an empty one, is an interactive shell.
pub open spec fn is_interactive(command: Option<Seq<char>>) -> bool {
    match command {
        Some(c) => c.len() == 0,
        None => true,
    }
}

/// The argument vector of the exec process for `command`: an interactive
/// login shell where there is no command, otherwise the wrapped command
/// under a non-interactive shell.
pub open spec fn exec_argv_of(command: Option<Seq<char>>) -> Seq<Seq<char>> {
    match command {
        Some(c) => if c.len() == 0 {
            interactive_argv()
        } else {
            seq!["/bin/bash"@, "-c"@, wrapped_command_of(c)]
        },
        None => interactive_argv(),
    }
}

/// One bind mount of the container: host `source` onto container `target`.
pub struct BindMount {
    pub source: String,
    pub target: String,
    pub read_only: bool,
}

/// Everything a container-create call must say.
pub struct ContainerConfig {
    pub name: String,
    pub image: String,
    pub hostname: String,
    pub env: Vec<String>,
    pub binds: Vec<BindMount>,
}

/// Everything an exec-create call must say.
pub struct ExecConfig {
    pub argv: Vec<String>,
    pub working_dir: String,
    pub env: Vec<String>,
    pub tty: bool,
}

/// `b` binds host `source` onto container `target`.
pub open spec fn bind_matches(
    b: BindMount,
    source: Seq<char>,
    target: Seq<char>,
    read_only: bool,
) -> bool {
    &&& b.source@ == source
    &&& b.target@ == target
    &&& b.read_only == read_only
}

/// `cfg` is the container-create call for `user`, with bind sources under
/// the host directory `cwd`: the deterministic name, the fixed image and
/// hostname, the identifying environment variable, the user's home bound
/// read-write, and the shared binaries bound read-only.
pub open spec fn container_config_matches(
    user: Seq<char>,
    cwd: Seq<char>,
    cfg: ContainerConfig,
) -> bool {
    &&& cfg.name@ == container_name_of(user)
    &&& cfg.image@ == image_ref()
    &&& cfg.hostname@ == sandbox_hostname()
    &&& cfg.env.deep_view() == seq![user_env_of(user)]
    &&& cfg.binds@.len() == 2
    &&& bind_matches(cfg.binds@[0], home_source_of(cwd, user), home_dir_of(user), false)
    &&& bind_matches(cfg.binds@[1], bin_source_of(cwd), bin_target(), true)
}

/// `cfg` is the exec-create call for `call`: the right argument vector, the
/// user's home as working directory, the fixed terminal environment, and a
/// tty exactly where a pty was requested.
pub open spec fn exec_config_matches(call: AttachCall, cfg: ExecConfig) -> bool {
    &&& cfg.argv.deep_view() == exec_argv_of(command_view(call.command))
    &&& cfg.working_dir@ == home_dir_of(call.username@)
    &&& cfg.env.deep_view() == seq![term_env()]
    &&& cfg.tty == (call.pty is Some)
}

/// The text of an optional command.
pub open spec fn command_view(c: Option<String>) -> Option<Seq<char>> {
    match c {
        Some(s) => Some(s@),
        None => None,
    }
}

/// Builds the container-create call for `user`, with bind sources under the
/// host directory `cwd`.
pub fn build_container_config(user: &str, cwd: &str) -> (cfg: ContainerConfig)
    ensures
        container_config_matches(user@, cwd@, cfg),
{
    proof {
        reveal_strlit("ghcr.io/dawdlestudios/container:latest");
        reveal_strlit("dawdle.space");
        reveal_strlit("DAWDLE_USER=");
        reveal_strlit("/home/");
        reveal_strlit("/.files/home/");
        reveal_strlit("/.files/bin");
        reveal_strlit("/usr/local/dawdle/bin");
    }
    let mut user_env = String::from_str("DAWDLE_USER=");
    user_env.append(user);
    let mut env: Vec<String> = Vec::new();
    env.push(user_env);
    proof {
        assert(env.deep_view() =~~= seq![user_env_of(user@)]);
    }
    let mut home_source = String::from_str(cwd);
    home_source.append("/.files/home/");
    home_source.append(user);
    let mut home_target = String::from_str("/home/");
    home_target.append(user);
    let mut bin_source = String::from_str(cwd);
    bin_source.append("/.files/bin");
    let mut binds: Vec<BindMount> = Vec::new();
    binds.push(BindMount { source: home_source, target: home_target, read_only: false });
    binds.push(
        BindMount {
            source: bin_source,
            target: String::from_str("/usr/local/dawdle/bin"),
            read_only: true,
        },
    );
    ContainerConfig {
        name: container_name(user),
        image: String::from_str("ghcr.io/dawdlestudios/container:latest"),
        hostname: String::from_str("dawdle.space"),
        env,
        binds,
    }
}

/// Builds the exec-create call for `call`.
pub fn build_exec_config(call: &AttachCall) -> (cfg: ExecConfig)
    ensures
        exec_config_matches(*call, cfg),
{
    proof {
        reveal_strlit("/bin/zsh");
        reveal_strlit("-l");
        reveal_strlit("-i");
        reveal_strlit("/bin/bash");
        reveal_strlit("-c");
        reveal_strlit("set -e; ");
        reveal_strlit("/home/");
        reveal_strlit("TERM=xterm-256color");
    }
    let interactive = match &call.command {
        Some(c) => c.as_str().is_empty(),
        None => true,
    };
    let mut argv: Vec<String> = Vec::new();
    if interactive {
        argv.push(String::from_str("/bin/zsh"));
        argv.push(String::from_str("-l"));
        argv.push(String::from_str("-i"));
        proof {
            assert(argv.deep_view() =~~= interactive_argv());
        }
    } else {
        let mut wrapped = String::from_str("set -e; ");
        match &call.command {
            Some(c) => wrapped.append(c.as_str()),
            None => {},
        }
        argv.push(String::from_str("/bin/bash"));
        argv.push(String::from_str("-c"));
        argv.push(wrapped);
        proof {
            assert(argv.deep_view() =~~= exec_argv_of(command_view(call.command)));
        }
    }
    let mut working_dir = String::from_str("/home/");
    working_dir.append(call.username.as_str());
    let mut env: Vec<String> = Vec::new();
    env.push(String::from_str("TERM=xterm-256color"));
    proof {
        assert(env.deep_view() =~~= seq![term_env()]);
    }
    let tty = match &call.pty {
        Some(_) => true,
        None => false,
    };
    ExecConfig { argv, working_dir, env, tty }
}

/// One call into the container engine, as the attach flow plans it.
pub enum EngineCall {
    ListContainers,
    CreateContainer { config: ContainerConfig },
    StartContainer { container_id: String },
    CreateExec { container_id: String, config: ExecConfig },
    StartExec { exec_id: String, tty: bool },
    ResizeExec { exec_id: String, width: u16, height: u16 },
}

/// The engine's answer to a call of the attach flow.
pub enum EngineReply {
    Containers { entries: Vec<ContainerEntry> },
    Created { container_id: String },
    /// The name is taken: a concurrent creator won. Treated as success.
    NameConflict,
    Started,
    ExecCreated { exec_id: String },
    ExecStarted,
    Resized,
    /// The engine or its transport failed: the attach fails, and the
    /// triggering request is rejected.
    Failure,
}

/// Where an attach flow stands.
pub enum AttachPhase {
    /// List the containers and look for the user's.
    Find,
    /// None found: create it.
    Creating,
    /// Start the container (idempotent if it already runs).
    Starting { container_id: String },
    /// Create the exec process inside it.
    CreatingExec { container_id: String },
    /// Start the exec process; the engine hands the streams to the caller.
    StartingExec { container_id: String, exec_id: String },
    /// A pty size was given: resize the fresh terminal at once.
    Resizing { container_id: String, exec_id: String },
    /// The attach succeeded.
    Done { container_id: String, exec_id: String },
    /// The attach failed; the requesting channel returns to rest.
    Failed,
}

/// The attach conversation with the engine for one attach call.
pub struct AttachFlow {
    pub call: AttachCall,
    pub cwd: String,
    pub phase: AttachPhase,
}

/// How an engine answer moves the flow forward. Every unexpected answer,
/// and every failure, ends the flow in `Failed`; a name conflict on create
/// goes back to the find step, since the container now exists.
pub open spec fn flow_step(f: AttachFlow, reply: EngineReply) -> AttachFlow {
    match f.phase {
        AttachPhase::Find => match reply {
            EngineReply::Containers { entries } => match match_index(
                entries@,
                listed_name_of(container_name_of(f.call.username@)),
            ) {
                Some(i) => AttachFlow {
                    phase: AttachPhase::Starting { container_id: entries@[i].id },
                    ..f
                },
                None => AttachFlow { phase: AttachPhase::Creating, ..f },
            },
            _ => AttachFlow { phase: AttachPhase::Failed, ..f },
        },
        AttachPhase::Creating => match reply {
            EngineReply::Created { container_id } => AttachFlow {
                phase: AttachPhase::Starting { container_id },
                ..f
            },
            EngineReply::NameConflict => AttachFlow { phase: AttachPhase::Find, ..f },
            _ => AttachFlow { phase: AttachPhase::Failed, ..f },
        },
        AttachPhase::Starting { container_id } => match reply {
            EngineReply::Started => AttachFlow {
                phase: AttachPhase::CreatingExec { container_id },
                ..f
            },
            _ => AttachFlow { phase: AttachPhase::Failed, ..f },
        },
        AttachPhase::CreatingExec { container_id } => match reply {
            EngineReply::ExecCreated { exec_id } => AttachFlow {
                phase: AttachPhase::StartingExec { container_id, exec_id },
                ..f
            },
            _ => AttachFlow { phase: AttachPhase::Failed, ..f },
        },
        AttachPhase::StartingExec { container_id, exec_id } => match reply {
            EngineReply::ExecStarted => if f.call.pty is Some {
                AttachFlow { phase: AttachPhase::Resizing { container_id, exec_id }, ..f }
            } else {
                AttachFlow { phase: AttachPhase::Done { container_id, exec_id }, ..f }
            },
            _ => AttachFlow { phase: AttachPhase::Failed, ..f },
        },
        AttachPhase::Resizing { container_id, exec_id } => match reply {
            EngineReply::Resized => AttachFlow {
                phase: AttachPhase::Done { container_id, exec_id },
                ..f
            },
            _ => AttachFlow { phase: AttachPhase::Failed, ..f },
        },
        AttachPhase::Done { .. } => f,
        AttachPhase::Failed => f,
    }
}

impl AttachFlow {
    /// Begins the attach conversation for `call`. The username must have
    /// been validated before anything touches the engine: an invalid one
    /// here is a code defect, not user input.
    pub fn new(call: AttachCall, cwd: String) -> (f: AttachFlow)
        requires
            valid_username(call.username@),
        ensures
            f.call == call && f.cwd == cwd && f.phase is Find,
    {
        AttachFlow { call, cwd, phase: AttachPhase::Find }
    }

    /// The engine call the flow waits on. Only meaningful while the flow is
    /// neither done nor failed.
    pub fn next_call(&self) -> (r: EngineCall)
        requires
            !(self.phase is Done),
            !(self.phase is Failed),
            self.phase is Resizing ==> self.call.pty is Some,
        ensures
            match self.phase {
                AttachPhase::Find => r is ListContainers,
                AttachPhase::Creating => r matches EngineCall::CreateContainer { config }
                    && container_config_matches(self.call.username@, self.cwd@, config),
                AttachPhase::Starting { container_id } => r matches EngineCall::StartContainer {
                    container_id: cid,
                } && cid@ == container_id@,
                AttachPhase::CreatingExec { container_id } => r matches EngineCall::CreateExec {
                    container_id: cid,
                    config,
                } && cid@ == container_id@ && exec_config_matches(self.call, config),
                AttachPhase::StartingExec { exec_id, .. } => r matches EngineCall::StartExec {
                    exec_id: eid,
                    tty,
                } && eid@ == exec_id@ && tty == (self.call.pty is Some),
                AttachPhase::Resizing { exec_id, .. } => r matches EngineCall::ResizeExec {
                    exec_id: eid,
                    width,
                    height,
                } && eid@ == exec_id@ && (self.call.pty matches Some(ps) && width == ps.width
                    && height == ps.height),
                _ => false,
            },
    {
        match &self.phase {
            AttachPhase::Find => EngineCall::ListContainers,
            AttachPhase::Creating => EngineCall::CreateContainer {
                config: build_container_config(self.call.username.as_str(), self.cwd.as_str()),
            },
            AttachPhase::Starting { container_id } => EngineCall::StartContainer {
                container_id: container_id.clone(),
            },
            AttachPhase::CreatingExec { container_id } => EngineCall::CreateExec {
                container_id: container_id.clone(),
                config: build_exec_config(&self.call),
            },
            AttachPhase::StartingExec { exec_id, .. } => EngineCall::StartExec {
                exec_id: exec_id.clone(),
                tty: match &self.call.pty {
                    Some(_) => true,
                    None => false,
                },
            },
            AttachPhase::Resizing { exec_id, .. } => {
                let (width, height) = match &self.call.pty {
                    Some(ps) => (ps.width, ps.height),
                    None => (0, 0),
                };
                EngineCall::ResizeExec { exec_id: exec_id.clone(), width, height }
            },
            AttachPhase::Done { .. } => EngineCall::ListContainers,
            AttachPhase::Failed => EngineCall::ListContainers,
        }
    }

    /// Takes the engine's answer and moves the flow forward.
    pub fn on_reply(self, reply: EngineReply) -> (r: AttachFlow)
        ensures
            r == flow_step(self, reply),
    {
        let AttachFlow { call, cwd, phase } = self;
        let next = match (phase, reply) {
            (AttachPhase::Find, EngineReply::Containers { entries }) => {
                match select_container(&entries, call.username.as_str()) {
                    Some(id) => AttachPhase::Starting { container_id: id },
                    None => AttachPhase::Creating,
                }
            },
            (AttachPhase::Creating, EngineReply::Created { container_id }) => {
                AttachPhase::Starting { container_id }
            },
            (AttachPhase::Creating, EngineReply::NameConflict) => AttachPhase::Find,
            (AttachPhase::Starting { container_id }, EngineReply::Started) => {
                AttachPhase::CreatingExec { container_id }
            },
            (AttachPhase::CreatingExec { container_id }, EngineReply::ExecCreated { exec_id }) => {
                AttachPhase::StartingExec { container_id, exec_id }
            },
            (AttachPhase::StartingExec { container_id, exec_id }, EngineReply::ExecStarted) => {
                match &call.pty {
                    Some(_) => AttachPhase::Resizing { container_id, exec_id },
                    None => AttachPhase::Done { container_id, exec_id },
                }
            },
            (AttachPhase::Resizing { container_id, exec_id }, EngineReply::Resized) => {
                AttachPhase::Done { container_id, exec_id }
            },
            (p, _) => match p {
                AttachPhase::Done { container_id, exec_id } => AttachPhase::Done {
                    container_id,
                    exec_id,
                },
                _ => AttachPhase::Failed,
            },
        };
        AttachFlow { call, cwd, phase: next }
    }
}

/// What the engine reports of an exec process: whether it still runs, its
/// process id, and its container.
pub struct ExecInspect {
    pub running: bool,
    pub pid: Option<u64>,
    pub container_id: Option<String>,
}

/// What teardown does with an inspected exec process.
pub enum DetachAction {
    /// The process already exited: nothing to kill.
    NothingToDo,
    /// Run this argument vector as a fresh exec process inside the
    /// container, to force-terminate the process.
    Kill { container_id: String, argv: Vec<String> },
    /// The engine's report lacked the process id or the container id; there
    /// is nothing well-formed to kill. Logged, never propagated.
    MissingData,
}

/// The argument vector that force-terminates the process with id `pid`.
pub open spec fn kill_argv_of(pid: nat) -> Seq<Seq<char>> {
    seq!["/bin/kill"@, "-9"@, dec_string_of(pid)]
}

/// Decides the teardown of an exec process from the engine's report: kill
/// only a process that still runs, inside its own container, by its process
/// id. Teardown never fails its caller; a malformed report is only logged.
pub fn detach_plan(inspect: ExecInspect) -> (r: DetachAction)
    ensures
        !inspect.running ==> r is NothingToDo,
        inspect.running ==> match (inspect.pid, inspect.container_id) {
            (Some(pid), Some(cid)) => r matches DetachAction::Kill { container_id, argv } && (
            container_id@ == cid@ && argv.deep_view() == kill_argv_of(pid as nat)),
            _ => r is MissingData,
        },
{
    proof {
        reveal_strlit("/bin/kill");
        reveal_strlit("-9");
    }
    if !inspect.running {
        return DetachAction::NothingToDo;
    }
    match (inspect.pid, inspect.container_id) {
        (Some(pid), Some(container_id)) => {
            let mut argv: Vec<String> = Vec::new();
            argv.push(String::from_str("/bin/kill"));
            argv.push(String::from_str("-9"));
            argv.push(u64_to_dec_string(pid));
            proof {
                assert(argv.deep_view() =~~= kill_argv_of(pid as nat));
            }
            DetachAction::Kill { container_id, argv }
        },
        _ => DetachAction::MissingData,
    }
}

} // verus!
