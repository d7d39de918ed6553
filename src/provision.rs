//! The provisioning workflow: check that the instance is not already up,
//! find the boot snapshot, create the instance from it, then poll until the
//! instance has a public address.
//!
//! The workflow is a state machine. [`provision_start`] gives the first
//! command; the caller performs each command against the provider and hands
//! the answer back to [`provision_step`] as an event, until a `Reply` comes.

use vstd::prelude::*;
use crate::actions::{
    msg_cancelled, ActionResponse, Config, Outcome, MAX_RETRIES, POLL_INTERVAL_SECS,
};
use crate::api::{CreateBodyView, CreateDropletBody, Droplet, Snapshot};
use crate::lookup::{
    find_droplet, find_snapshot, first_droplet_named, first_snapshot_named, is_first,
    is_public_interface, lemma_first_index_is, lemma_first_index_some, public_ip, public_ip_of,
};
use crate::poll::{poll_decision, poll_next, PollDecision, PollObservation, PollPolicy};
use crate::text::{comma_split, split_commas};

verus! {

#[derive(Clone, Copy)]
pub enum ProvisionState {
    /// Waiting for the list of instances.
    Checking,
    /// Waiting for the list of snapshots.
    ResolvingSnapshot,
    /// Waiting for the answer to the create request.
    Creating,
    /// Waiting for the new instance to get a public address.
    AwaitingNetwork { droplet_id: u32, failures: u32 },
    /// The outcome has been given.
    Finished,
}

/// The answer to the last command.
pub enum ProvisionEvent {
    InstancesListed(Vec<Droplet>),
    SnapshotsListed(Vec<Snapshot>),
    /// `None`: the request failed.
    InstanceCreated(Option<Droplet>),
    /// `None`: the read failed.
    InstanceFetched(Option<Droplet>),
    /// The caller asks to stop waiting; honoured between reads only.
    Cancelled,
}

/// What the caller must do next.
pub enum ProvisionCommand {
    ListInstances,
    ListSnapshots,
    CreateInstance(CreateDropletBody),
    /// Wait `delay_secs`, then read the instance.
    FetchInstance { droplet_id: u32, delay_secs: u64 },
    /// Report the outcome; the workflow is over.
    Reply(ActionResponse),
}

/// Model of [`ProvisionCommand`].
pub enum ProvisionCommandView {
    ListInstances,
    ListSnapshots,
    CreateInstance(CreateBodyView),
    FetchInstance { droplet_id: u32, delay_secs: u64 },
    Reply(Outcome),
}

impl View for ProvisionCommand {
    type V = ProvisionCommandView;

    open spec fn view(&self) -> ProvisionCommandView {
        match self {
            ProvisionCommand::ListInstances => ProvisionCommandView::ListInstances,
            ProvisionCommand::ListSnapshots => ProvisionCommandView::ListSnapshots,
            ProvisionCommand::CreateInstance(b) => ProvisionCommandView::CreateInstance(b@),
            ProvisionCommand::FetchInstance { droplet_id, delay_secs } => {
                ProvisionCommandView::FetchInstance { droplet_id: *droplet_id, delay_secs: *delay_secs }
            },
            ProvisionCommand::Reply(r) => ProvisionCommandView::Reply(r@),
        }
    }
}

pub open spec fn command_view(c: Option<ProvisionCommand>) -> Option<ProvisionCommandView> {
    match c {
        Some(c) => Some(c@),
        None => None,
    }
}

pub open spec fn msg_already_exists() -> Seq<char> {
    "already running"@
}

pub open spec fn msg_no_snapshot() -> Seq<char> {
    "No snapshots found!"@
}

pub open spec fn msg_create_failed() -> Seq<char> {
    "failed to create"@
}

pub open spec fn msg_no_address() -> Seq<char> {
    "failed to get IP"@
}

pub open spec fn msg_server_up(ip: Seq<char>) -> Seq<char> {
    "running, ip="@ + ip
}

/// The request that creates the configured instance from snapshot
/// `snapshot_id`, which the request names as its image.
pub open spec fn create_body_for(cfg: Config, snapshot_id: Seq<char>) -> CreateBodyView {
    CreateBodyView {
        name: cfg.droplet_name@,
        region: cfg.region@,
        size: cfg.size@,
        image: snapshot_id,
        ssh_keys: comma_split(cfg.ssh_fingerprints@),
    }
}

/// The rule of the address wait: up to `MAX_RETRIES` failed reads are
/// tolerated, reads without an address cost nothing.
pub open spec fn network_retry_cap() -> Option<u32> {
    Some(MAX_RETRIES)
}

/// What one read of the new instance shows.
pub open spec fn fetch_observation(r: Option<Droplet>) -> PollObservation {
    match r {
        None => PollObservation::Failed,
        Some(d) => if public_ip_of(d) is Some {
            PollObservation::Ready
        } else {
            PollObservation::Pending
        },
    }
}

pub open spec fn fetch_command(droplet_id: u32) -> ProvisionCommandView {
    ProvisionCommandView::FetchInstance { droplet_id, delay_secs: POLL_INTERVAL_SECS }
}

pub open spec fn fail_with(m: Seq<char>) -> (ProvisionState, Option<ProvisionCommandView>) {
    (ProvisionState::Finished, Some(ProvisionCommandView::Reply(Outcome::Failure(m))))
}

/// One transition of the workflow. An event that does not answer the
/// state's command, and any event once finished, changes nothing.
pub open spec fn provision_next(cfg: Config, s: ProvisionState, e: ProvisionEvent) -> (
    ProvisionState,
    Option<ProvisionCommandView>,
) {
    match s {
        ProvisionState::Checking => match e {
            ProvisionEvent::InstancesListed(l) => if first_droplet_named(
                l@,
                cfg.droplet_name@,
            ) is Some {
                fail_with(msg_already_exists())
            } else {
                (ProvisionState::ResolvingSnapshot, Some(ProvisionCommandView::ListSnapshots))
            },
            _ => (s, None),
        },
        ProvisionState::ResolvingSnapshot => match e {
            ProvisionEvent::SnapshotsListed(l) => match first_snapshot_named(
                l@,
                cfg.snapshot_name@,
            ) {
                None => fail_with(msg_no_snapshot()),
                Some(i) => (
                    ProvisionState::Creating,
                    Some(ProvisionCommandView::CreateInstance(create_body_for(cfg, l@[i].id@))),
                ),
            },
            _ => (s, None),
        },
        ProvisionState::Creating => match e {
            ProvisionEvent::InstanceCreated(r) => match r {
                None => fail_with(msg_create_failed()),
                Some(d) => (
                    ProvisionState::AwaitingNetwork { droplet_id: d.id, failures: 0 },
                    Some(fetch_command(d.id)),
                ),
            },
            _ => (s, None),
        },
        ProvisionState::AwaitingNetwork { droplet_id, failures } => match e {
            ProvisionEvent::InstanceFetched(r) => match poll_decision(
                network_retry_cap(),
                failures,
                fetch_observation(r),
            ) {
                PollDecision::Retry { failures: f } => (
                    ProvisionState::AwaitingNetwork { droplet_id, failures: f },
                    Some(fetch_command(droplet_id)),
                ),
                PollDecision::GiveUp => fail_with(msg_no_address()),
                PollDecision::Complete => (
                    ProvisionState::Finished,
                    Some(
                        ProvisionCommandView::Reply(
                            Outcome::Success(msg_server_up(public_ip_of(r->0)->0)),
                        ),
                    ),
                ),
            },
            ProvisionEvent::Cancelled => fail_with(msg_cancelled()),
            _ => (s, None),
        },
        ProvisionState::Finished => (s, None),
    }
}

/// Builds the create request for the configured instance from the snapshot
/// with id `snapshot_id`.
pub fn create_droplet_body(cfg: &Config, snapshot_id: &str) -> (r: CreateDropletBody)
    ensures
        r@ == create_body_for(*cfg, snapshot_id@),
{
    CreateDropletBody {
        name: cfg.droplet_name.clone(),
        region: cfg.region.clone(),
        size: cfg.size.clone(),
        image: String::from_str(snapshot_id),
        ssh_keys: split_commas(cfg.ssh_fingerprints.as_str()),
    }
}

/// The policy of the address wait.
pub fn network_poll_policy() -> (r: PollPolicy)
    ensures
        r.interval_secs == POLL_INTERVAL_SECS,
        r.retry_cap == network_retry_cap(),
{
    PollPolicy { interval_secs: POLL_INTERVAL_SECS, retry_cap: Some(MAX_RETRIES) }
}

fn fail(m: &str) -> (r: (ProvisionState, Option<ProvisionCommand>))
    ensures
        r.0 == ProvisionState::Finished,
        command_view(r.1) == Some(ProvisionCommandView::Reply(Outcome::Failure(m@))),
{
    (
        ProvisionState::Finished,
        Some(ProvisionCommand::Reply(ActionResponse::FAIL(String::from_str(m)))),
    )
}

/// The first state and command of the workflow: list the instances.
pub fn provision_start() -> (r: (ProvisionState, ProvisionCommand))
    ensures
        r.0 == ProvisionState::Checking,
        r.1@ == ProvisionCommandView::ListInstances,
{
    (ProvisionState::Checking, ProvisionCommand::ListInstances)
}

/// Advances the workflow by one answered command.
pub fn provision_step(cfg: &Config, state: ProvisionState, event: ProvisionEvent) -> (r: (
    ProvisionState,
    Option<ProvisionCommand>,
))
    ensures
        (r.0, command_view(r.1)) == provision_next(*cfg, state, event),
{
    match state {
        ProvisionState::Checking => match event {
            ProvisionEvent::InstancesListed(l) => {
                if find_droplet(&l, &cfg.droplet_name).is_some() {
                    fail("already running")
                } else {
                    (ProvisionState::ResolvingSnapshot, Some(ProvisionCommand::ListSnapshots))
                }
            },
            _ => (state, None),
        },
        ProvisionState::ResolvingSnapshot => match event {
            ProvisionEvent::SnapshotsListed(l) => match find_snapshot(&l, &cfg.snapshot_name) {
                None => fail("No snapshots found!"),
                Some(i) => {
                    let body = create_droplet_body(cfg, l[i].id.as_str());
                    (ProvisionState::Creating, Some(ProvisionCommand::CreateInstance(body)))
                },
            },
            _ => (state, None),
        },
        ProvisionState::Creating => match event {
            ProvisionEvent::InstanceCreated(r) => match r {
                None => fail("failed to create"),
                Some(d) => (
                    ProvisionState::AwaitingNetwork { droplet_id: d.id, failures: 0 },
                    Some(
                        ProvisionCommand::FetchInstance {
                            droplet_id: d.id,
                            delay_secs: POLL_INTERVAL_SECS,
                        },
                    ),
                ),
            },
            _ => (state, None),
        },
        ProvisionState::AwaitingNetwork { droplet_id, failures } => match event {
            ProvisionEvent::InstanceFetched(r) => {
                let ip = match &r {
                    None => None,
                    Some(d) => public_ip(d),
                };
                let obs = match (&r, &ip) {
                    (None, _) => PollObservation::Failed,
                    (Some(_), None) => PollObservation::Pending,
                    (Some(_), Some(_)) => PollObservation::Ready,
                };
                assert(obs == fetch_observation(r));
                match poll_next(&network_poll_policy(), failures, obs) {
                    PollDecision::Retry { failures: f } => (
                        ProvisionState::AwaitingNetwork { droplet_id, failures: f },
                        Some(
                            ProvisionCommand::FetchInstance {
                                droplet_id,
                                delay_secs: POLL_INTERVAL_SECS,
                            },
                        ),
                    ),
                    PollDecision::GiveUp => fail("failed to get IP"),
                    PollDecision::Complete => {
                        // only a read that showed an address completes the wait
                        let ip = match ip {
                            Some(ip) => ip,
                            None => String::new(),
                        };
                        let msg = String::from_str("running, ip=").concat(ip.as_str());
                        (
                            ProvisionState::Finished,
                            Some(ProvisionCommand::Reply(ActionResponse::SUCCESS(msg))),
                        )
                    },
                }
            },
            ProvisionEvent::Cancelled => fail("cancelled"),
            _ => (state, None),
        },
        ProvisionState::Finished => (state, None),
    }
}

/// The state reached and the commands issued when the workflow, in state
/// `s`, receives the events `evs` in order.
pub open spec fn provision_run(cfg: Config, s: ProvisionState, evs: Seq<ProvisionEvent>) -> (
    ProvisionState,
    Seq<ProvisionCommandView>,
)
    decreases evs.len(),
{
    if evs.len() == 0 {
        (s, Seq::empty())
    } else {
        let (s1, c) = provision_next(cfg, s, evs[0]);
        let rest = provision_run(cfg, s1, evs.drop_first());
        (
            rest.0,
            match c {
                Some(c) => seq![c] + rest.1,
                None => rest.1,
            },
        )
    }
}

/// `k` failed reads of an instance.
pub open spec fn failed_reads(k: nat) -> Seq<ProvisionEvent> {
    Seq::new(k, |i: int| ProvisionEvent::InstanceFetched(None))
}

/// `k` reads of instance `droplet_id`, each after the polling pause.
pub open spec fn fetches(droplet_id: u32, k: nat) -> Seq<ProvisionCommandView> {
    Seq::new(k, |i: int| fetch_command(droplet_id))
}

/// Once finished, the workflow ignores whatever comes and issues nothing.
pub proof fn lemma_finished_is_final(cfg: Config, evs: Seq<ProvisionEvent>)
    ensures
        provision_run(cfg, ProvisionState::Finished, evs) == (
            ProvisionState::Finished,
            Seq::<ProvisionCommandView>::empty(),
        ),
    decreases evs.len(),
{
    if evs.len() > 0 {
        lemma_finished_is_final(cfg, evs.drop_first());
    }
}

/// If an instance with the configured name is already listed, provisioning
/// fails at once and issues no further command, in particular no create
/// request, whatever events follow.
pub proof fn law_existing_instance_blocks_create(
    cfg: Config,
    droplets: Vec<Droplet>,
    later: Seq<ProvisionEvent>,
)
    requires
        exists|i: int| 0 <= i < droplets@.len() && #[trigger] droplets@[i].name@ == cfg.droplet_name@,
    ensures
        provision_run(cfg, ProvisionState::Checking, seq![ProvisionEvent::InstancesListed(droplets)] + later)
            == (
            ProvisionState::Finished,
            seq![ProvisionCommandView::Reply(Outcome::Failure(msg_already_exists()))],
        ),
{
    let i = choose|i: int| 0 <= i < droplets@.len() && #[trigger] droplets@[i].name@ == cfg.droplet_name@;
    lemma_first_index_some(
        droplets@.len() as int,
        |j: int| droplets@[j].name@ == cfg.droplet_name@,
        i,
    );
    assert(first_droplet_named(droplets@, cfg.droplet_name@) is Some);
    let evs = seq![ProvisionEvent::InstancesListed(droplets)] + later;
    assert(evs[0] == ProvisionEvent::InstancesListed(droplets));
    assert(evs.drop_first() == later);
    assert(provision_next(cfg, ProvisionState::Checking, evs[0]) == fail_with(msg_already_exists()));
    lemma_finished_is_final(cfg, later);
    assert(seq![ProvisionCommandView::Reply(Outcome::Failure(msg_already_exists()))] + Seq::<
        ProvisionCommandView,
    >::empty() == seq![ProvisionCommandView::Reply(Outcome::Failure(msg_already_exists()))]);
}

/// While the failure count stays within the budget, each failed read adds
/// one failure and asks for another read.
pub proof fn lemma_failed_reads(
    cfg: Config,
    droplet_id: u32,
    failures: u32,
    k: nat,
    rest: Seq<ProvisionEvent>,
)
    requires
        failures + k <= MAX_RETRIES,
    ensures
        provision_run(
            cfg,
            ProvisionState::AwaitingNetwork { droplet_id, failures },
            failed_reads(k) + rest,
        ) == ({
            let after = provision_run(
                cfg,
                ProvisionState::AwaitingNetwork { droplet_id, failures: (failures + k) as u32 },
                rest,
            );
            (after.0, fetches(droplet_id, k) + after.1)
        }),
    decreases k,
{
    if k > 0 {
        let evs = failed_reads(k) + rest;
        assert(evs.drop_first() == failed_reads((k - 1) as nat) + rest);
        assert(evs[0] == ProvisionEvent::InstanceFetched(None));
        lemma_failed_reads(cfg, droplet_id, (failures + 1) as u32, (k - 1) as nat, rest);
        let after = provision_run(
            cfg,
            ProvisionState::AwaitingNetwork { droplet_id, failures: (failures + k) as u32 },
            rest,
        );
        assert(seq![fetch_command(droplet_id)] + (fetches(droplet_id, (k - 1) as nat) + after.1)
            == fetches(droplet_id, k) + after.1);
    } else {
        assert(failed_reads(0) + rest == rest);
        assert(fetches(droplet_id, 0) + provision_run(
            cfg,
            ProvisionState::AwaitingNetwork { droplet_id, failures },
            rest,
        ).1 == provision_run(cfg, ProvisionState::AwaitingNetwork { droplet_id, failures }, rest).1);
    }
}

/// Six failed reads in a row while waiting for the address end the workflow
/// with a failure: the first five each ask for another read, the sixth
/// exceeds the budget. Nothing is issued afterwards.
pub proof fn law_retry_budget_exhausted(cfg: Config, droplet_id: u32, later: Seq<ProvisionEvent>)
    ensures
        provision_run(
            cfg,
            ProvisionState::AwaitingNetwork { droplet_id, failures: 0 },
            failed_reads(6) + later,
        ) == (
            ProvisionState::Finished,
            fetches(droplet_id, 5) + seq![
                ProvisionCommandView::Reply(Outcome::Failure(msg_no_address())),
            ],
        ),
{
    let rest = seq![ProvisionEvent::InstanceFetched(None)] + later;
    assert(failed_reads(6) + later == failed_reads(5) + rest);
    lemma_failed_reads(cfg, droplet_id, 0, 5, rest);
    assert(rest.drop_first() == later);
    lemma_finished_is_final(cfg, later);
    assert(seq![ProvisionCommandView::Reply(Outcome::Failure(msg_no_address()))] + Seq::<
        ProvisionCommandView,
    >::empty() == seq![ProvisionCommandView::Reply(Outcome::Failure(msg_no_address()))]);
}

/// At most five failed reads, then a read whose interface `i` is the first
/// public one with an address: the workflow succeeds with that address,
/// after exactly `k + 1` reads. Nothing is issued afterwards. (With several
/// public interfaces, the first one that has an address is reported.)
pub proof fn law_address_within_budget(
    cfg: Config,
    droplet_id: u32,
    k: nat,
    d: Droplet,
    i: int,
    later: Seq<ProvisionEvent>,
)
    requires
        k <= MAX_RETRIES,
        d.networks is Some,
        is_first(
            d.networks->0.v4@.len() as int,
            |j: int| is_public_interface(d.networks->0.v4@[j]),
            i,
        ),
    ensures
        provision_run(
            cfg,
            ProvisionState::AwaitingNetwork { droplet_id, failures: 0 },
            failed_reads(k) + seq![ProvisionEvent::InstanceFetched(Some(d))] + later,
        ) == (
            ProvisionState::Finished,
            fetches(droplet_id, k) + seq![
                ProvisionCommandView::Reply(
                    Outcome::Success(msg_server_up(d.networks->0.v4@[i].ip_address@)),
                ),
            ],
        ),
{
    lemma_first_index_is(
        d.networks->0.v4@.len() as int,
        |j: int| is_public_interface(d.networks->0.v4@[j]),
        i,
    );
    assert(public_ip_of(d) == Some(d.networks->0.v4@[i].ip_address@));
    let rest = seq![ProvisionEvent::InstanceFetched(Some(d))] + later;
    assert(failed_reads(k) + seq![ProvisionEvent::InstanceFetched(Some(d))] + later
        == failed_reads(k) + rest);
    lemma_failed_reads(cfg, droplet_id, 0, k, rest);
    assert(rest.drop_first() == later);
    lemma_finished_is_final(cfg, later);
    let reply = ProvisionCommandView::Reply(Outcome::Success(msg_server_up(public_ip_of(d)->0)));
    assert(seq![reply] + Seq::<ProvisionCommandView>::empty() == seq![reply]);
}

} // verus!
