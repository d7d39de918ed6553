//! The teardown workflow: find the instance, shut it down, save its disk as
//! a new snapshot under the configured name, wait until the new snapshot is
//! listed, delete the snapshot it supersedes, then delete the instance.
//!
//! The provider offers no status for a snapshot job: the only sign of
//! completion is that the snapshot list grows past the length recorded just
//! before the request. That wait has no cap; the caller may cancel it
//! between reads.
//!
//! Like provisioning, the workflow is a state machine driven by the caller
//! through [`destroy_start`] and [`destroy_step`].

use vstd::prelude::*;
use crate::actions::{msg_cancelled, ActionResponse, Config, Outcome, POLL_INTERVAL_SECS};
use crate::api::{Droplet, Snapshot};
use crate::lookup::{
    find_droplet, find_snapshot, first_droplet_named, first_snapshot_named, lemma_first_index_none,
    opt_view,
};
use crate::poll::{poll_next, PollDecision, PollObservation, PollPolicy};

verus! {

pub enum DestroyState {
    /// Waiting for the list of instances.
    Checking,
    /// Waiting for the answer to the shutdown request.
    ShuttingDown { droplet_id: u32 },
    /// Waiting for the snapshot list as it is before the new snapshot.
    RecordingSnapshots { droplet_id: u32 },
    /// Waiting for the answer to the snapshot request. `before_len` is the
    /// recorded length of the list, `prior` the id of the snapshot that the
    /// new one will supersede, if there is one.
    RequestingSnapshot { droplet_id: u32, before_len: usize, prior: Option<String> },
    /// Polling the snapshot list until it grows past `before_len`.
    AwaitingSnapshot { droplet_id: u32, before_len: usize, prior: Option<String> },
    /// Waiting for the answer to the deletion of the superseded snapshot.
    DeletingPrior { droplet_id: u32 },
    /// Waiting for the answer to the deletion of the instance;
    /// `prune_failed` records that the superseded snapshot was not deleted.
    DeletingInstance { prune_failed: bool },
    /// The outcome has been given.
    Finished,
}

/// The answer to the last command.
pub enum DestroyEvent {
    InstancesListed(Vec<Droplet>),
    /// Whether the shutdown request was accepted.
    ShutdownAnswered(bool),
    SnapshotsListed(Vec<Snapshot>),
    /// Whether the snapshot request was accepted.
    SnapshotRequested(bool),
    /// Whether the superseded snapshot was deleted.
    SnapshotDeleted(bool),
    /// The caller asks to stop waiting; honoured between snapshot reads only.
    Cancelled,
    /// Whether the instance was deleted.
    InstanceDeleted(bool),
}

/// What the caller must do next.
pub enum DestroyCommand {
    ListInstances,
    Shutdown { droplet_id: u32 },
    /// Wait `delay_secs`, then list the snapshots.
    ListSnapshots { delay_secs: u64 },
    CreateSnapshot { droplet_id: u32, name: String },
    DeleteSnapshot { id: String },
    DeleteInstance { droplet_id: u32 },
    /// Report the outcome; the workflow is over.
    Reply(ActionResponse),
}

/// Model of [`DestroyCommand`].
pub enum DestroyCommandView {
    ListInstances,
    Shutdown { droplet_id: u32 },
    ListSnapshots { delay_secs: u64 },
    CreateSnapshot { droplet_id: u32, name: Seq<char> },
    DeleteSnapshot { id: Seq<char> },
    DeleteInstance { droplet_id: u32 },
    Reply(Outcome),
}

impl View for DestroyCommand {
    type V = DestroyCommandView;

    open spec fn view(&self) -> DestroyCommandView {
        match self {
            DestroyCommand::ListInstances => DestroyCommandView::ListInstances,
            DestroyCommand::Shutdown { droplet_id } => DestroyCommandView::Shutdown {
                droplet_id: *droplet_id,
            },
            DestroyCommand::ListSnapshots { delay_secs } => DestroyCommandView::ListSnapshots {
                delay_secs: *delay_secs,
            },
            DestroyCommand::CreateSnapshot { droplet_id, name } => {
                DestroyCommandView::CreateSnapshot { droplet_id: *droplet_id, name: name@ }
            },
            DestroyCommand::DeleteSnapshot { id } => DestroyCommandView::DeleteSnapshot { id: id@ },
            DestroyCommand::DeleteInstance { droplet_id } => DestroyCommandView::DeleteInstance {
                droplet_id: *droplet_id,
            },
            DestroyCommand::Reply(r) => DestroyCommandView::Reply(r@),
        }
    }
}

pub open spec fn destroy_command_view(c: Option<DestroyCommand>) -> Option<DestroyCommandView> {
    match c {
        Some(c) => Some(c@),
        None => None,
    }
}

pub open spec fn msg_not_running() -> Seq<char> {
    "not running"@
}

pub open spec fn msg_shutdown_failed() -> Seq<char> {
    "Failed to shutdown droplet!"@
}

pub open spec fn msg_snapshot_failed() -> Seq<char> {
    "Failed to take snapshot! Exiting."@
}

pub open spec fn msg_delete_failed() -> Seq<char> {
    "Failed to delete droplet!"@
}

/// The success text; it says so when the superseded snapshot could not be
/// deleted.
pub open spec fn msg_destroyed(prune_failed: bool) -> Seq<char> {
    if prune_failed {
        "destroyed (the superseded snapshot was not deleted)"@
    } else {
        "destroyed"@
    }
}

pub open spec fn destroy_fail(m: Seq<char>) -> (DestroyState, Option<DestroyCommandView>) {
    (DestroyState::Finished, Some(DestroyCommandView::Reply(Outcome::Failure(m))))
}

/// The id of the first snapshot in `l` named `name`: the one a new snapshot
/// under that name supersedes.
pub open spec fn superseded(l: Seq<Snapshot>, name: Seq<char>) -> Option<String> {
    match first_snapshot_named(l, name) {
        Some(i) => Some(l[i].id),
        None => None,
    }
}

/// What the workflow does once the new snapshot is listed: delete the
/// superseded snapshot if there is one, else go on to the instance.
pub open spec fn after_snapshot(droplet_id: u32, prior: Option<String>) -> (
    DestroyState,
    Option<DestroyCommandView>,
) {
    match prior {
        Some(p) => (
            DestroyState::DeletingPrior { droplet_id },
            Some(DestroyCommandView::DeleteSnapshot { id: p@ }),
        ),
        None => (
            DestroyState::DeletingInstance { prune_failed: false },
            Some(DestroyCommandView::DeleteInstance { droplet_id }),
        ),
    }
}

/// One transition of the workflow. An event that does not answer the
/// state's command, and any event once finished, changes nothing.
pub open spec fn destroy_next(cfg: Config, s: DestroyState, e: DestroyEvent) -> (
    DestroyState,
    Option<DestroyCommandView>,
) {
    match s {
        DestroyState::Checking => match e {
            DestroyEvent::InstancesListed(l) => match first_droplet_named(l@, cfg.droplet_name@) {
                None => destroy_fail(msg_not_running()),
                Some(i) => (
                    DestroyState::ShuttingDown { droplet_id: l@[i].id },
                    Some(DestroyCommandView::Shutdown { droplet_id: l@[i].id }),
                ),
            },
            _ => (s, None),
        },
        DestroyState::ShuttingDown { droplet_id } => match e {
            DestroyEvent::ShutdownAnswered(ok) => if ok {
                (
                    DestroyState::RecordingSnapshots { droplet_id },
                    Some(DestroyCommandView::ListSnapshots { delay_secs: 0 }),
                )
            } else {
                destroy_fail(msg_shutdown_failed())
            },
            _ => (s, None),
        },
        DestroyState::RecordingSnapshots { droplet_id } => match e {
            DestroyEvent::SnapshotsListed(l) => (
                DestroyState::RequestingSnapshot {
                    droplet_id,
                    before_len: l@.len() as usize,
                    prior: superseded(l@, cfg.snapshot_name@),
                },
                Some(DestroyCommandView::CreateSnapshot { droplet_id, name: cfg.snapshot_name@ }),
            ),
            _ => (s, None),
        },
        DestroyState::RequestingSnapshot { droplet_id, before_len, prior } => match e {
            DestroyEvent::SnapshotRequested(ok) => if ok {
                (
                    DestroyState::AwaitingSnapshot { droplet_id, before_len, prior },
                    Some(DestroyCommandView::ListSnapshots { delay_secs: POLL_INTERVAL_SECS }),
                )
            } else {
                destroy_fail(msg_snapshot_failed())
            },
            _ => (s, None),
        },
        DestroyState::AwaitingSnapshot { droplet_id, before_len, prior } => match e {
            DestroyEvent::SnapshotsListed(l) => if l@.len() > before_len {
                after_snapshot(droplet_id, prior)
            } else {
                (s, Some(DestroyCommandView::ListSnapshots { delay_secs: POLL_INTERVAL_SECS }))
            },
            DestroyEvent::Cancelled => destroy_fail(msg_cancelled()),
            _ => (s, None),
        },
        DestroyState::DeletingPrior { droplet_id } => match e {
            DestroyEvent::SnapshotDeleted(ok) => (
                DestroyState::DeletingInstance { prune_failed: !ok },
                Some(DestroyCommandView::DeleteInstance { droplet_id }),
            ),
            _ => (s, None),
        },
        DestroyState::DeletingInstance { prune_failed } => match e {
            DestroyEvent::InstanceDeleted(ok) => if ok {
                (
                    DestroyState::Finished,
                    Some(DestroyCommandView::Reply(Outcome::Success(msg_destroyed(prune_failed)))),
                )
            } else {
                destroy_fail(msg_delete_failed())
            },
            _ => (s, None),
        },
        DestroyState::Finished => (s, None),
    }
}

/// The policy of the snapshot wait: no cap.
pub fn snapshot_poll_policy() -> (r: PollPolicy)
    ensures
        r.interval_secs == POLL_INTERVAL_SECS,
        r.retry_cap is None,
{
    PollPolicy { interval_secs: POLL_INTERVAL_SECS, retry_cap: None }
}

fn fail(m: &str) -> (r: (DestroyState, Option<DestroyCommand>))
    ensures
        (r.0, destroy_command_view(r.1)) == destroy_fail(m@),
{
    (DestroyState::Finished, Some(DestroyCommand::Reply(ActionResponse::FAIL(String::from_str(m)))))
}

/// The first state and command of the workflow: list the instances.
pub fn destroy_start() -> (r: (DestroyState, DestroyCommand))
    ensures
        r.0 == DestroyState::Checking,
        r.1@ == DestroyCommandView::ListInstances,
{
    (DestroyState::Checking, DestroyCommand::ListInstances)
}

/// Advances the workflow by one answered command.
pub fn destroy_step(cfg: &Config, state: DestroyState, event: DestroyEvent) -> (r: (
    DestroyState,
    Option<DestroyCommand>,
))
    ensures
        (r.0, destroy_command_view(r.1)) == destroy_next(*cfg, state, event),
{
    match state {
        DestroyState::Checking => match event {
            DestroyEvent::InstancesListed(l) => match find_droplet(&l, &cfg.droplet_name) {
                None => fail("not running"),
                Some(i) => {
                    let droplet_id = l[i].id;
                    (
                        DestroyState::ShuttingDown { droplet_id },
                        Some(DestroyCommand::Shutdown { droplet_id }),
                    )
                },
            },
            _ => (state, None),
        },
        DestroyState::ShuttingDown { droplet_id } => match event {
            DestroyEvent::ShutdownAnswered(ok) => if ok {
                (
                    DestroyState::RecordingSnapshots { droplet_id },
                    Some(DestroyCommand::ListSnapshots { delay_secs: 0 }),
                )
            } else {
                fail("Failed to shutdown droplet!")
            },
            _ => (state, None),
        },
        DestroyState::RecordingSnapshots { droplet_id } => match event {
            DestroyEvent::SnapshotsListed(l) => {
                let prior = match find_snapshot(&l, &cfg.snapshot_name) {
                    Some(i) => Some(l[i].id.clone()),
                    None => None,
                };
                (
                    DestroyState::RequestingSnapshot { droplet_id, before_len: l.len(), prior },
                    Some(
                        DestroyCommand::CreateSnapshot {
                            droplet_id,
                            name: cfg.snapshot_name.clone(),
                        },
                    ),
                )
            },
            _ => (state, None),
        },
        DestroyState::RequestingSnapshot { droplet_id, before_len, prior } => match event {
            DestroyEvent::SnapshotRequested(ok) => if ok {
                (
                    DestroyState::AwaitingSnapshot { droplet_id, before_len, prior },
                    Some(DestroyCommand::ListSnapshots { delay_secs: POLL_INTERVAL_SECS }),
                )
            } else {
                fail("Failed to take snapshot! Exiting.")
            },
            _ => (DestroyState::RequestingSnapshot { droplet_id, before_len, prior }, None),
        },
        DestroyState::AwaitingSnapshot { droplet_id, before_len, prior } => match event {
            DestroyEvent::SnapshotsListed(l) => {
                let obs = if l.len() > before_len {
                    PollObservation::Ready
                } else {
                    PollObservation::Pending
                };
                let policy = snapshot_poll_policy();
                match poll_next(&policy, 0, obs) {
                    PollDecision::Complete => match prior {
                        Some(p) => (
                            DestroyState::DeletingPrior { droplet_id },
                            Some(DestroyCommand::DeleteSnapshot { id: p }),
                        ),
                        None => (
                            DestroyState::DeletingInstance { prune_failed: false },
                            Some(DestroyCommand::DeleteInstance { droplet_id }),
                        ),
                    },
                    _ => (
                        DestroyState::AwaitingSnapshot { droplet_id, before_len, prior },
                        Some(DestroyCommand::ListSnapshots { delay_secs: policy.interval_secs }),
                    ),
                }
            },
            DestroyEvent::Cancelled => fail("cancelled"),
            _ => (DestroyState::AwaitingSnapshot { droplet_id, before_len, prior }, None),
        },
        DestroyState::DeletingPrior { droplet_id } => match event {
            DestroyEvent::SnapshotDeleted(ok) => (
                DestroyState::DeletingInstance { prune_failed: !ok },
                Some(DestroyCommand::DeleteInstance { droplet_id }),
            ),
            _ => (state, None),
        },
        DestroyState::DeletingInstance { prune_failed } => match event {
            DestroyEvent::InstanceDeleted(ok) => if ok {
                let msg = if prune_failed {
                    String::from_str("destroyed (the superseded snapshot was not deleted)")
                } else {
                    String::from_str("destroyed")
                };
                (
                    DestroyState::Finished,
                    Some(DestroyCommand::Reply(ActionResponse::SUCCESS(msg))),
                )
            } else {
                fail("Failed to delete droplet!")
            },
            _ => (state, None),
        },
        DestroyState::Finished => (state, None),
    }
}

/// The state reached and the commands issued when the workflow, in state
/// `s`, receives the events `evs` in order.
pub open spec fn destroy_run(cfg: Config, s: DestroyState, evs: Seq<DestroyEvent>) -> (
    DestroyState,
    Seq<DestroyCommandView>,
)
    decreases evs.len(),
{
    if evs.len() == 0 {
        (s, Seq::empty())
    } else {
        let (s1, c) = destroy_next(cfg, s, evs[0]);
        let rest = destroy_run(cfg, s1, evs.drop_first());
        (
            rest.0,
            match c {
                Some(c) => seq![c] + rest.1,
                None => rest.1,
            },
        )
    }
}

/// The ids of the snapshots that `cmds` delete, in order.
pub open spec fn deleted_snapshots(cmds: Seq<DestroyCommandView>) -> Seq<Seq<char>>
    decreases cmds.len(),
{
    if cmds.len() == 0 {
        Seq::empty()
    } else {
        let rest = deleted_snapshots(cmds.drop_first());
        match cmds[0] {
            DestroyCommandView::DeleteSnapshot { id } => seq![id] + rest,
            _ => rest,
        }
    }
}

/// The snapshot is requested or awaited, and `prior` is the recorded id of
/// the snapshot it supersedes.
pub open spec fn before_prune(s: DestroyState, prior: Option<Seq<char>>) -> bool {
    match s {
        DestroyState::RequestingSnapshot { prior: p, .. } => opt_view(p) == prior,
        DestroyState::AwaitingSnapshot { prior: p, .. } => opt_view(p) == prior,
        _ => false,
    }
}

/// Pruning is done or no longer due.
pub open spec fn past_prune(s: DestroyState) -> bool {
    s is DeletingPrior || s is DeletingInstance || s is Finished
}

proof fn lemma_deleted_snapshots_cons(c: DestroyCommandView, rest: Seq<DestroyCommandView>)
    ensures
        deleted_snapshots(seq![c] + rest) == (match c {
            DestroyCommandView::DeleteSnapshot { id } => seq![id] + deleted_snapshots(rest),
            _ => deleted_snapshots(rest),
        }),
{
    let cmds = seq![c] + rest;
    assert(cmds.drop_first() == rest);
    assert(cmds[0] == c);
}

proof fn lemma_past_prune_deletes_nothing(cfg: Config, s: DestroyState, evs: Seq<DestroyEvent>)
    requires
        past_prune(s),
    ensures
        past_prune(destroy_run(cfg, s, evs).0),
        deleted_snapshots(destroy_run(cfg, s, evs).1) == Seq::<Seq<char>>::empty(),
    decreases evs.len(),
{
    if evs.len() > 0 {
        let (s1, c) = destroy_next(cfg, s, evs[0]);
        lemma_past_prune_deletes_nothing(cfg, s1, evs.drop_first());
        if c is Some {
            lemma_deleted_snapshots_cons(c->0, destroy_run(cfg, s1, evs.drop_first()).1);
        }
    }
}

proof fn lemma_before_prune_deletes_prior(
    cfg: Config,
    s: DestroyState,
    prior: Option<Seq<char>>,
    evs: Seq<DestroyEvent>,
)
    requires
        before_prune(s, prior),
    ensures
        deleted_snapshots(destroy_run(cfg, s, evs).1) == Seq::<Seq<char>>::empty() || (
        prior is Some && deleted_snapshots(destroy_run(cfg, s, evs).1) == seq![prior->0]),
    decreases evs.len(),
{
    if evs.len() > 0 {
        let (s1, c) = destroy_next(cfg, s, evs[0]);
        let tail = evs.drop_first();
        if before_prune(s1, prior) {
            lemma_before_prune_deletes_prior(cfg, s1, prior, tail);
        } else {
            lemma_past_prune_deletes_nothing(cfg, s1, tail);
        }
        if c is Some {
            lemma_deleted_snapshots_cons(c->0, destroy_run(cfg, s1, tail).1);
            let ds = deleted_snapshots(destroy_run(cfg, s1, tail).1);
            if c->0 is DeleteSnapshot {
                assert(ds == Seq::<Seq<char>>::empty());
                assert(seq![prior->0] + ds == seq![prior->0]);
            }
        }
    }
}

/// A snapshot is deleted only when the snapshot list has grown past the
/// length recorded before the new snapshot was requested, and the deleted
/// one is the recorded superseded snapshot. The instance is deleted only
/// after that growth too: right on it when nothing is superseded, else once
/// the superseded snapshot's deletion has been answered.
pub proof fn law_pruning_follows_growth(cfg: Config, s: DestroyState, e: DestroyEvent)
    ensures
        destroy_next(cfg, s, e).1 matches Some(DestroyCommandView::DeleteSnapshot { id }) ==> {
            &&& s matches DestroyState::AwaitingSnapshot { before_len, prior, .. }
            &&& e matches DestroyEvent::SnapshotsListed(l)
            &&& l@.len() > before_len
            &&& prior matches Some(p)
            &&& id == p@
        },
        destroy_next(cfg, s, e).1 matches Some(DestroyCommandView::DeleteInstance { .. }) ==> {
            ||| s is DeletingPrior
            ||| {
                &&& s matches DestroyState::AwaitingSnapshot { before_len, prior, .. }
                &&& e matches DestroyEvent::SnapshotsListed(l)
                &&& l@.len() > before_len
                &&& prior is None
            }
        },
{
}

/// Once the snapshot list has been recorded, the rest of the workflow
/// deletes at most one snapshot, and only the first one in the recorded
/// list that bears the configured name: never the new snapshot, which that
/// list cannot hold.
pub proof fn law_prune_targets_recorded_snapshot(
    cfg: Config,
    droplet_id: u32,
    recorded: Vec<Snapshot>,
    later: Seq<DestroyEvent>,
)
    ensures
        ({
            let deleted = deleted_snapshots(
                destroy_run(
                    cfg,
                    DestroyState::RecordingSnapshots { droplet_id },
                    seq![DestroyEvent::SnapshotsListed(recorded)] + later,
                ).1,
            );
            ||| deleted == Seq::<Seq<char>>::empty()
            ||| {
                &&& first_snapshot_named(recorded@, cfg.snapshot_name@) matches Some(i)
                &&& deleted == seq![recorded@[i].id@]
            }
        }),
{
    let evs = seq![DestroyEvent::SnapshotsListed(recorded)] + later;
    assert(evs[0] == DestroyEvent::SnapshotsListed(recorded));
    assert(evs.drop_first() == later);
    let (s1, c) = destroy_next(cfg, DestroyState::RecordingSnapshots { droplet_id }, evs[0]);
    let prior = opt_view(superseded(recorded@, cfg.snapshot_name@));
    assert(before_prune(s1, prior));
    lemma_before_prune_deletes_prior(cfg, s1, prior, later);
    lemma_deleted_snapshots_cons(c->0, destroy_run(cfg, s1, later).1);
}

/// With no snapshot under the configured name in the recorded list, the
/// rest of the workflow deletes no snapshot at all.
pub proof fn law_no_prior_no_prune(
    cfg: Config,
    droplet_id: u32,
    recorded: Vec<Snapshot>,
    later: Seq<DestroyEvent>,
)
    requires
        forall|i: int| 0 <= i < recorded@.len() ==> #[trigger] recorded@[i].name@ != cfg.snapshot_name@,
    ensures
        deleted_snapshots(
            destroy_run(
                cfg,
                DestroyState::RecordingSnapshots { droplet_id },
                seq![DestroyEvent::SnapshotsListed(recorded)] + later,
            ).1,
        ) == Seq::<Seq<char>>::empty(),
{
    lemma_first_index_none(recorded@.len() as int, |j: int| recorded@[j].name@ == cfg.snapshot_name@);
    law_prune_targets_recorded_snapshot(cfg, droplet_id, recorded, later);
}

} // verus!
