//! A model of the container engine, and the laws the attach flow and the
//! teardown plan satisfy against it.
//!
//! The engine itself is outside this crate. This module states, at the
//! specification level, what its answers can say — a create succeeds exactly
//! when the name is free, a name conflict means the container exists, a
//! listing reflects the containers — and proves the laws the gateway's
//! planning gives against any engine that behaves so: two concurrent
//! attaches for a fresh username converge on exactly one container, and
//! teardown kills only the exec process, never the container.

use vstd::prelude::*;

verus! {

use crate::adapter::{
    AttachFlow, AttachPhase, ContainerEntry, EngineReply, container_name_of, entry_matches,
    flow_step, lemma_match_index_exists, lemma_match_index_some, listed_name_of, match_index,
};

/// One exec process as the engine holds it: its container, and whether it
/// still runs.
pub struct ExecModel {
    pub container: Seq<char>,
    pub running: bool,
}

/// The engine's state: the containers, keyed by their deterministic name —
/// the engine holds at most one container per name — and the exec processes,
/// keyed by exec id.
pub struct EngineModel {
    pub containers: Map<Seq<char>, Seq<char>>,
    pub execs: Map<Seq<char>, ExecModel>,
}

/// `entry` is how a listing shows the container held under `name`.
pub open spec fn entry_for(e: EngineModel, entry: ContainerEntry, name: Seq<char>) -> bool {
    &&& e.containers.contains_key(name)
    &&& entry.id@ == e.containers[name]
    &&& entry.names.deep_view() == seq![listed_name_of(name)]
}

/// A listing reflects the engine's containers: every entry shows one of
/// them, and every container shows up.
pub open spec fn list_reflects(e: EngineModel, entries: Seq<ContainerEntry>) -> bool {
    &&& forall|i: int|
        0 <= i < entries.len() ==> exists|name: Seq<char>| entry_for(e, #[trigger] entries[i], name)
    &&& forall|name: Seq<char>|
        #[trigger] e.containers.contains_key(name) ==> exists|i: int|
            0 <= i < entries.len() && entry_for(e, #[trigger] entries[i], name)
}

/// Listed names determine the container name: the slash prefix is fixed.
proof fn lemma_listed_injective(a: Seq<char>, b: Seq<char>)
    requires
        listed_name_of(a) == listed_name_of(b),
    ensures
        a == b,
{
    assert(listed_name_of(a).skip(1) =~= a);
    assert(listed_name_of(b).skip(1) =~= b);
}

/// Against a listing that reflects the engine, the find step answers
/// exactly: it yields the id held under the user's deterministic name, and
/// nothing where the engine holds no such container.
pub proof fn lemma_find_answers(e: EngineModel, entries: Seq<ContainerEntry>, user: Seq<char>)
    requires
        list_reflects(e, entries),
    ensures
        match match_index(entries, listed_name_of(container_name_of(user))) {
            Some(i) => e.containers.contains_key(container_name_of(user)) && entries[i].id@
                == e.containers[container_name_of(user)],
            None => !e.containers.contains_key(container_name_of(user)),
        },
{
    let name = container_name_of(user);
    let listed = listed_name_of(name);
    match match_index(entries, listed) {
        Some(i) => {
            lemma_match_index_some(entries, listed);
            let entry = entries[i];
            let name2 = choose|n: Seq<char>| entry_for(e, entry, n);
            assert(entry_for(e, entry, name2));
            let j = choose|j: int| 0 <= j < entry.names@.len() && entry.names@[j]@ == listed;
            assert(entry.names.deep_view().len() == entry.names@.len());
            assert(entry.names.deep_view() == seq![listed_name_of(name2)]);
            assert(entry.names@.len() == 1);
            assert(entry.names.deep_view()[j] == entry.names@[j]@);
            assert(entry.names@[j]@ == listed_name_of(name2));
            lemma_listed_injective(name, name2);
        },
        None => {
            lemma_match_index_exists(entries, listed);
            if e.containers.contains_key(name) {
                let i = choose|i: int|
                    0 <= i < entries.len() && entry_for(e, #[trigger] entries[i], name);
                let entry = entries[i];
                assert(entry.names.deep_view().len() == entry.names@.len());
                assert(entry.names@.len() == 1);
                assert(entry.names.deep_view()[0] == entry.names@[0]@);
                assert(entry.names@[0]@ == listed);
                assert(entry_matches(entry, listed));
            }
        },
    }
}

/// The answers the engine can give an attach flow in its current phase:
/// a create succeeds exactly where the name is free, a name conflict means
/// the name is taken, a fresh exec id is fresh, and a listing reflects the
/// containers. Transport failures are not modelled: the laws below speak of
/// runs the engine answered.
pub open spec fn engine_answers(e: EngineModel, f: AttachFlow, reply: EngineReply) -> bool {
    match f.phase {
        AttachPhase::Find => reply matches EngineReply::Containers { entries } && list_reflects(
            e,
            entries@,
        ),
        AttachPhase::Creating => {
            let name = container_name_of(f.call.username@);
            match reply {
                EngineReply::Created { container_id } => !e.containers.contains_key(name),
                EngineReply::NameConflict => e.containers.contains_key(name),
                _ => false,
            }
        },
        AttachPhase::Starting { .. } => reply is Started,
        AttachPhase::CreatingExec { .. } => reply matches EngineReply::ExecCreated { exec_id }
            && !e.execs.contains_key(exec_id@),
        AttachPhase::StartingExec { .. } => reply is ExecStarted,
        AttachPhase::Resizing { .. } => reply is Resized,
        AttachPhase::Done { .. } => false,
        AttachPhase::Failed => false,
    }
}

/// The engine after answering the flow: a create inserts the container under
/// its deterministic name, an exec-create inserts the running exec process;
/// nothing else changes, and nothing is ever removed or overwritten.
pub open spec fn engine_after(e: EngineModel, f: AttachFlow, reply: EngineReply) -> EngineModel {
    match f.phase {
        AttachPhase::Creating => match reply {
            EngineReply::Created { container_id } => EngineModel {
                containers: e.containers.insert(
                    container_name_of(f.call.username@),
                    container_id@,
                ),
                ..e
            },
            _ => e,
        },
        AttachPhase::CreatingExec { container_id } => match reply {
            EngineReply::ExecCreated { exec_id } => EngineModel {
                execs: e.execs.insert(
                    exec_id@,
                    ExecModel { container: container_id@, running: true },
                ),
                ..e
            },
            _ => e,
        },
        _ => e,
    }
}

/// An interleaved run of two attach flows against one engine: each trace
/// step names the flow that moves and the answer it takes. The run is `None`
/// where a step's answer is not one the engine could give.
pub open spec fn run_two(
    e: EngineModel,
    f1: AttachFlow,
    f2: AttachFlow,
    trace: Seq<(bool, EngineReply)>,
) -> Option<(EngineModel, AttachFlow, AttachFlow)>
    decreases trace.len(),
{
    if trace.len() == 0 {
        Some((e, f1, f2))
    } else {
        let step = trace[0];
        let rest = trace.drop_first();
        if step.0 {
            if engine_answers(e, f1, step.1) {
                run_two(engine_after(e, f1, step.1), flow_step(f1, step.1), f2, rest)
            } else {
                None
            }
        } else {
            if engine_answers(e, f2, step.1) {
                run_two(engine_after(e, f2, step.1), f1, flow_step(f2, step.1), rest)
            } else {
                None
            }
        }
    }
}

/// A flow for `user` in a consistent run: it has not failed, and from the
/// start step on it carries the id the engine holds under the user's name.
pub open spec fn flow_ok(e: EngineModel, f: AttachFlow, user: Seq<char>) -> bool {
    let name = container_name_of(user);
    &&& f.call.username@ == user
    &&& !(f.phase is Failed)
    &&& match f.phase {
        AttachPhase::Starting { container_id } => e.containers.contains_key(name)
            && e.containers[name] == container_id@,
        AttachPhase::CreatingExec { container_id } => e.containers.contains_key(name)
            && e.containers[name] == container_id@,
        AttachPhase::StartingExec { container_id, .. } => e.containers.contains_key(name)
            && e.containers[name] == container_id@,
        AttachPhase::Resizing { container_id, .. } => e.containers.contains_key(name)
            && e.containers[name] == container_id@,
        AttachPhase::Done { container_id, .. } => e.containers.contains_key(name)
            && e.containers[name] == container_id@,
        _ => true,
    }
}

/// The engine has grown from `e0` by at most the one container named
/// `name`, which `e0` did not hold: no other name appeared, vanished or
/// changed its container.
pub open spec fn engine_extends(e0: EngineModel, e: EngineModel, name: Seq<char>) -> bool {
    &&& !e0.containers.contains_key(name)
    &&& forall|n: Seq<char>|
        n != name ==> (#[trigger] e.containers.contains_key(n) <==> e0.containers.contains_key(n))
    &&& forall|n: Seq<char>|
        n != name && #[trigger] e0.containers.contains_key(n) ==> e.containers[n]
            == e0.containers[n]
}

/// One consistent step preserves the run's invariant: the stepping flow
/// stays consistent (in particular it never fails — a name conflict goes
/// back to find, where the container is now found), the other flow's view of
/// the engine stays true, and the engine still holds at most the one new
/// container.
proof fn lemma_attach_step_preserves(
    e0: EngineModel,
    user: Seq<char>,
    e: EngineModel,
    f: AttachFlow,
    g: AttachFlow,
    reply: EngineReply,
)
    requires
        engine_extends(e0, e, container_name_of(user)),
        flow_ok(e, f, user),
        flow_ok(e, g, user),
        engine_answers(e, f, reply),
    ensures
        engine_extends(e0, engine_after(e, f, reply), container_name_of(user)),
        flow_ok(engine_after(e, f, reply), flow_step(f, reply), user),
        flow_ok(engine_after(e, f, reply), g, user),
{
    let name = container_name_of(user);
    match f.phase {
        AttachPhase::Find => {
            match reply {
                EngineReply::Containers { entries } => {
                    lemma_find_answers(e, entries@, user);
                },
                _ => {},
            }
        },
        _ => {},
    }
}

/// The run invariant holds at the end of every consistent run.
proof fn lemma_run_two_inv(
    e0: EngineModel,
    user: Seq<char>,
    e: EngineModel,
    f1: AttachFlow,
    f2: AttachFlow,
    trace: Seq<(bool, EngineReply)>,
    e_end: EngineModel,
    g1: AttachFlow,
    g2: AttachFlow,
)
    requires
        engine_extends(e0, e, container_name_of(user)),
        flow_ok(e, f1, user),
        flow_ok(e, f2, user),
        run_two(e, f1, f2, trace) == Some((e_end, g1, g2)),
    ensures
        engine_extends(e0, e_end, container_name_of(user)),
        flow_ok(e_end, g1, user),
        flow_ok(e_end, g2, user),
    decreases trace.len(),
{
    if trace.len() == 0 {
    } else {
        let step = trace[0];
        let rest = trace.drop_first();
        if step.0 {
            lemma_attach_step_preserves(e0, user, e, f1, f2, step.1);
            lemma_run_two_inv(
                e0,
                user,
                engine_after(e, f1, step.1),
                flow_step(f1, step.1),
                f2,
                rest,
                e_end,
                g1,
                g2,
            );
        } else {
            lemma_attach_step_preserves(e0, user, e, f2, f1, step.1);
            lemma_run_two_inv(
                e0,
                user,
                engine_after(e, f2, step.1),
                f1,
                flow_step(f2, step.1),
                rest,
                e_end,
                g1,
                g2,
            );
        }
    }
}

/// Law: for a valid username the engine has never seen, two concurrent
/// attach flows, however interleaved, leave exactly one container for that
/// username — the engine grew by the one entry under the deterministic name
/// and by nothing else — and both flows, where they complete, completed
/// inside that same container. Creation is idempotent under the race: the
/// loser's name conflict leads it to find and reuse the winner's container,
/// and neither flow fails on account of the race.
pub proof fn lemma_concurrent_attach_one_container(
    e0: EngineModel,
    user: Seq<char>,
    f1: AttachFlow,
    f2: AttachFlow,
    trace: Seq<(bool, EngineReply)>,
    e_end: EngineModel,
    g1: AttachFlow,
    g2: AttachFlow,
)
    requires
        f1.call.username@ == user,
        f2.call.username@ == user,
        f1.phase is Find,
        f2.phase is Find,
        !e0.containers.contains_key(container_name_of(user)),
        run_two(e0, f1, f2, trace) == Some((e_end, g1, g2)),
        g1.phase is Done,
        g2.phase is Done,
    ensures
        e_end.containers.contains_key(container_name_of(user)),
        forall|n: Seq<char>|
            n != container_name_of(user) ==> (#[trigger] e_end.containers.contains_key(n)
                <==> e0.containers.contains_key(n)),
        g1.phase matches AttachPhase::Done { container_id, .. } && container_id@
            == e_end.containers[container_name_of(user)],
        g2.phase matches AttachPhase::Done { container_id, .. } && container_id@
            == e_end.containers[container_name_of(user)],
{
    lemma_run_two_inv(e0, user, e0, f1, f2, trace, e_end, g1, g2);
}

/// The model effect of the teardown plan's kill: the exec process stops
/// running; the containers — in particular the user's — are untouched, and
/// so is every other exec process.
pub open spec fn kill_effect(e: EngineModel, exec_id: Seq<char>) -> EngineModel {
    if e.execs.contains_key(exec_id) {
        EngineModel {
            execs: e.execs.insert(
                exec_id,
                ExecModel { container: e.execs[exec_id].container, running: false },
            ),
            ..e
        }
    } else {
        e
    }
}

/// Law: after a channel's teardown the user's container still exists — a
/// find would still yield it — while the closed channel's exec process
/// reports as not running.
pub proof fn lemma_teardown_keeps_container(e: EngineModel, exec_id: Seq<char>)
    ensures
        kill_effect(e, exec_id).containers == e.containers,
        kill_effect(e, exec_id).execs.contains_key(exec_id) ==> !kill_effect(
            e,
            exec_id,
        ).execs[exec_id].running,
        forall|x: Seq<char>|
            x != exec_id ==> (#[trigger] kill_effect(e, exec_id).execs.contains_key(x)
                <==> e.execs.contains_key(x)),
        forall|x: Seq<char>|
            x != exec_id && #[trigger] e.execs.contains_key(x) ==> kill_effect(
                e,
                exec_id,
            ).execs[x] == e.execs[x],
{
}

} // verus!
