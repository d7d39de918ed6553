use droplet_manager::actions::{
    acknowledgement, parse_command, ActionResponse, BotCommand, Config, MAX_RETRIES,
    POLL_INTERVAL_SECS,
};
use droplet_manager::api::{Droplet, DropletNetwork, DropletNetworkV4, Snapshot};
use droplet_manager::destroy::{
    destroy_start, destroy_step, DestroyCommand, DestroyEvent, DestroyState,
};
use droplet_manager::guard::{busy_response, cancel_response, WorkflowGuard};
use droplet_manager::provision::{
    create_droplet_body, provision_start, provision_step, ProvisionCommand, ProvisionEvent,
    ProvisionState,
};

fn config(name: &str, snapshot: &str) -> Config {
    Config {
        droplet_name: name.to_string(),
        region: "fra1".to_string(),
        size: "s-1vcpu-1gb".to_string(),
        snapshot_name: snapshot.to_string(),
        ssh_fingerprints: "aa:bb,cc:dd".to_string(),
    }
}

fn droplet(id: u32, name: &str, public: Option<&str>) -> Droplet {
    Droplet {
        id,
        name: name.to_string(),
        status: "new".to_string(),
        networks: public.map(|ip| DropletNetwork {
            v4: vec![DropletNetworkV4 {
                ip_address: ip.to_string(),
                netmask: "255.255.240.0".to_string(),
                gateway: "1.2.3.1".to_string(),
                kind: "public".to_string(),
            }],
        }),
    }
}

fn snapshot(id: &str, name: &str) -> Snapshot {
    Snapshot { id: id.to_string(), name: name.to_string(), created_at: "2024-01-01T00:00:00Z".to_string() }
}

fn reply_of(c: Option<ProvisionCommand>) -> ActionResponse {
    match c {
        Some(ProvisionCommand::Reply(r)) => r,
        _ => panic!("expected a reply"),
    }
}

fn destroy_reply_of(c: Option<DestroyCommand>) -> ActionResponse {
    match c {
        Some(DestroyCommand::Reply(r)) => r,
        _ => panic!("expected a reply"),
    }
}

/// Runs provisioning from the start up to the address wait for instance 9.
fn provision_until_created(cfg: &Config) -> ProvisionState {
    let (s, c) = provision_start();
    assert!(matches!(c, ProvisionCommand::ListInstances));
    let (s, c) = provision_step(cfg, s, ProvisionEvent::InstancesListed(vec![]));
    assert!(matches!(c, Some(ProvisionCommand::ListSnapshots)));
    let (s, c) = provision_step(cfg, s, ProvisionEvent::SnapshotsListed(vec![snapshot("101", "base")]));
    assert!(matches!(c, Some(ProvisionCommand::CreateInstance(_))));
    let (s, c) = provision_step(cfg, s, ProvisionEvent::InstanceCreated(Some(droplet(9, "srv", None))));
    assert!(matches!(c, Some(ProvisionCommand::FetchInstance { droplet_id: 9, delay_secs: 20 })));
    s
}

#[test]
fn fresh_provision() {
    let cfg = config("srv", "base");
    let (s, _) = provision_start();
    let (s, _) = provision_step(&cfg, s, ProvisionEvent::InstancesListed(vec![]));
    let (mut s, c) = provision_step(
        &cfg,
        s,
        ProvisionEvent::SnapshotsListed(vec![snapshot("s0", "other"), snapshot("s1", "base")]),
    );
    match c {
        Some(ProvisionCommand::CreateInstance(b)) => {
            assert_eq!(b.image, "s1");
            assert_eq!(b.name, "srv");
            assert_eq!(b.region, "fra1");
            assert_eq!(b.size, "s-1vcpu-1gb");
            assert_eq!(b.ssh_keys, vec!["aa:bb".to_string(), "cc:dd".to_string()]);
        }
        _ => panic!("expected a create request"),
    }
    let (s2, c) = provision_step(&cfg, s, ProvisionEvent::InstanceCreated(Some(droplet(9, "srv", None))));
    s = s2;
    assert!(matches!(c, Some(ProvisionCommand::FetchInstance { droplet_id: 9, delay_secs: 20 })));
    for _ in 0..4 {
        let (s2, c) = provision_step(&cfg, s, ProvisionEvent::InstanceFetched(Some(droplet(9, "srv", None))));
        s = s2;
        assert!(matches!(c, Some(ProvisionCommand::FetchInstance { droplet_id: 9, .. })));
    }
    let (s, c) = provision_step(&cfg, s, ProvisionEvent::InstanceFetched(Some(droplet(9, "srv", Some("1.2.3.4")))));
    assert!(matches!(s, ProvisionState::Finished));
    let r = reply_of(c);
    assert!(r.is_success());
    assert_eq!(r.message(), "running, ip=1.2.3.4");
    assert!(r.message().contains("1.2.3.4"));
}

#[test]
fn already_running() {
    let cfg = config("srv", "base");
    let (s, _) = provision_start();
    let (s, c) = provision_step(&cfg, s, ProvisionEvent::InstancesListed(vec![droplet(1, "srv", None)]));
    assert!(matches!(s, ProvisionState::Finished));
    let r = reply_of(c);
    assert!(!r.is_success());
    assert_eq!(r.message(), "already running");
    let (s, c) = provision_step(&cfg, s, ProvisionEvent::SnapshotsListed(vec![snapshot("1", "base")]));
    assert!(matches!(s, ProvisionState::Finished));
    assert!(c.is_none());
}

#[test]
fn existing_instance_among_others_blocks_create() {
    let cfg = config("srv", "base");
    let (s, _) = provision_start();
    let list = vec![droplet(1, "a", None), droplet(2, "srv", None), droplet(3, "b", None)];
    let (s, c) = provision_step(&cfg, s, ProvisionEvent::InstancesListed(list));
    assert!(matches!(s, ProvisionState::Finished));
    assert!(matches!(c, Some(ProvisionCommand::Reply(ActionResponse::FAIL(_)))));
}

#[test]
fn retry_budget_exhausted_on_sixth_failure() {
    let cfg = config("srv", "base");
    let mut s = provision_until_created(&cfg);
    for k in 1..=5u32 {
        let (s2, c) = provision_step(&cfg, s, ProvisionEvent::InstanceFetched(None));
        s = s2;
        assert!(matches!(s, ProvisionState::AwaitingNetwork { droplet_id: 9, failures } if failures == k));
        assert!(matches!(c, Some(ProvisionCommand::FetchInstance { droplet_id: 9, .. })));
    }
    let (s, c) = provision_step(&cfg, s, ProvisionEvent::InstanceFetched(None));
    assert!(matches!(s, ProvisionState::Finished));
    let r = reply_of(c);
    assert!(!r.is_success());
    assert_eq!(r.message(), "failed to get IP");
    assert_eq!(MAX_RETRIES, 5);
}

#[test]
fn five_failures_then_address_succeeds() {
    let cfg = config("srv", "base");
    let mut s = provision_until_created(&cfg);
    for _ in 0..5 {
        let (s2, _) = provision_step(&cfg, s, ProvisionEvent::InstanceFetched(None));
        s = s2;
    }
    let (s, c) = provision_step(&cfg, s, ProvisionEvent::InstanceFetched(Some(droplet(9, "srv", Some("5.6.7.8")))));
    assert!(matches!(s, ProvisionState::Finished));
    let r = reply_of(c);
    assert!(r.is_success());
    assert_eq!(r.message(), "running, ip=5.6.7.8");
}

#[test]
fn reads_without_address_do_not_count() {
    let cfg = config("srv", "base");
    let mut s = provision_until_created(&cfg);
    for _ in 0..5 {
        let (s2, _) = provision_step(&cfg, s, ProvisionEvent::InstanceFetched(None));
        s = s2;
    }
    for _ in 0..50 {
        let (s2, c) = provision_step(&cfg, s, ProvisionEvent::InstanceFetched(Some(droplet(9, "srv", None))));
        s = s2;
        assert!(matches!(s, ProvisionState::AwaitingNetwork { failures: 5, .. }));
        assert!(matches!(c, Some(ProvisionCommand::FetchInstance { .. })));
    }
}

#[test]
fn provision_without_snapshot_fails() {
    let cfg = config("srv", "base");
    let (s, _) = provision_start();
    let (s, _) = provision_step(&cfg, s, ProvisionEvent::InstancesListed(vec![]));
    let (s2, c) = provision_step(&cfg, s, ProvisionEvent::SnapshotsListed(vec![snapshot("1", "Base")]));
    assert!(matches!(s2, ProvisionState::Finished));
    assert_eq!(reply_of(c).message(), "No snapshots found!");
    let (s, _) = provision_start();
    let (s, _) = provision_step(&cfg, s, ProvisionEvent::InstancesListed(vec![]));
    let (_, c) = provision_step(&cfg, s, ProvisionEvent::SnapshotsListed(vec![]));
    assert_eq!(reply_of(c).message(), "No snapshots found!");
}

#[test]
fn provision_create_rejected() {
    let cfg = config("srv", "base");
    let (s, _) = provision_start();
    let (s, _) = provision_step(&cfg, s, ProvisionEvent::InstancesListed(vec![]));
    let (s, _) = provision_step(&cfg, s, ProvisionEvent::SnapshotsListed(vec![snapshot("1", "base")]));
    let (s, c) = provision_step(&cfg, s, ProvisionEvent::InstanceCreated(None));
    assert!(matches!(s, ProvisionState::Finished));
    assert_eq!(reply_of(c).message(), "failed to create");
}

#[test]
fn unexpected_event_changes_nothing() {
    let cfg = config("srv", "base");
    let (s, _) = provision_start();
    let (s, c) = provision_step(&cfg, s, ProvisionEvent::InstanceFetched(None));
    assert!(matches!(s, ProvisionState::Checking));
    assert!(c.is_none());
}

#[test]
fn create_body_names_the_snapshot_id() {
    let cfg = config("srv", "base");
    let b = create_droplet_body(&cfg, "s1");
    assert_eq!(b.image, "s1");
    let b = create_droplet_body(&cfg, "123456");
    assert_eq!(b.image, "123456");
    assert_eq!(b.ssh_keys, vec!["aa:bb".to_string(), "cc:dd".to_string()]);
}

/// Runs teardown from the start to the snapshot wait, recording `before`.
fn destroy_until_awaiting(cfg: &Config, before: Vec<Snapshot>) -> DestroyState {
    let (s, c) = destroy_start();
    assert!(matches!(c, DestroyCommand::ListInstances));
    let (s, c) = destroy_step(cfg, s, DestroyEvent::InstancesListed(vec![droplet(4, "x", None), droplet(9, "srv", None)]));
    assert!(matches!(c, Some(DestroyCommand::Shutdown { droplet_id: 9 })));
    let (s, c) = destroy_step(cfg, s, DestroyEvent::ShutdownAnswered(true));
    assert!(matches!(c, Some(DestroyCommand::ListSnapshots { delay_secs: 0 })));
    let (s, c) = destroy_step(cfg, s, DestroyEvent::SnapshotsListed(before));
    match c {
        Some(DestroyCommand::CreateSnapshot { droplet_id, name }) => {
            assert_eq!(droplet_id, 9);
            assert_eq!(name, "base");
        }
        _ => panic!("expected a snapshot request"),
    }
    let (s, c) = destroy_step(cfg, s, DestroyEvent::SnapshotRequested(true));
    assert!(matches!(c, Some(DestroyCommand::ListSnapshots { delay_secs: 20 })));
    s
}

#[test]
fn destroy_happy_path() {
    let cfg = config("srv", "base");
    let before = vec![snapshot("old", "base"), snapshot("other", "misc")];
    let mut s = destroy_until_awaiting(&cfg, before);
    let mut deletes: Vec<String> = Vec::new();
    let (s2, c) = destroy_step(&cfg, s, DestroyEvent::SnapshotsListed(vec![snapshot("old", "base"), snapshot("other", "misc")]));
    s = s2;
    assert!(matches!(c, Some(DestroyCommand::ListSnapshots { delay_secs: 20 })));
    let grown = vec![snapshot("old", "base"), snapshot("other", "misc"), snapshot("new", "base")];
    let (s2, c) = destroy_step(&cfg, s, DestroyEvent::SnapshotsListed(grown));
    s = s2;
    match c {
        Some(DestroyCommand::DeleteSnapshot { id }) => deletes.push(id),
        _ => panic!("expected the superseded snapshot to be deleted"),
    }
    let (s2, c) = destroy_step(&cfg, s, DestroyEvent::SnapshotDeleted(true));
    s = s2;
    assert!(matches!(c, Some(DestroyCommand::DeleteInstance { droplet_id: 9 })));
    let (s, c) = destroy_step(&cfg, s, DestroyEvent::InstanceDeleted(true));
    assert!(matches!(s, DestroyState::Finished));
    let r = destroy_reply_of(c);
    assert!(r.is_success());
    assert_eq!(r.message(), "destroyed");
    assert_eq!(deletes, vec!["old".to_string()]);
}

#[test]
fn failed_prune_is_reported_and_teardown_goes_on() {
    let cfg = config("srv", "base");
    let s = destroy_until_awaiting(&cfg, vec![snapshot("old", "base")]);
    let (s, c) = destroy_step(&cfg, s, DestroyEvent::SnapshotsListed(vec![snapshot("old", "base"), snapshot("new", "base")]));
    assert!(matches!(c, Some(DestroyCommand::DeleteSnapshot { .. })));
    let (s, c) = destroy_step(&cfg, s, DestroyEvent::SnapshotDeleted(false));
    assert!(matches!(c, Some(DestroyCommand::DeleteInstance { droplet_id: 9 })));
    let (_, c) = destroy_step(&cfg, s, DestroyEvent::InstanceDeleted(true));
    let r = destroy_reply_of(c);
    assert!(r.is_success());
    assert_eq!(r.message(), "destroyed (the superseded snapshot was not deleted)");
}

#[test]
fn destroy_without_prior_snapshot_deletes_none() {
    let cfg = config("srv", "base");
    let mut s = destroy_until_awaiting(&cfg, vec![snapshot("a", "misc")]);
    for _ in 0..3 {
        let (s2, c) = destroy_step(&cfg, s, DestroyEvent::SnapshotsListed(vec![]));
        s = s2;
        assert!(matches!(c, Some(DestroyCommand::ListSnapshots { .. })));
    }
    let (s, c) = destroy_step(&cfg, s, DestroyEvent::SnapshotsListed(vec![snapshot("a", "misc"), snapshot("b", "base")]));
    assert!(matches!(c, Some(DestroyCommand::DeleteInstance { droplet_id: 9 })));
    let (_, c) = destroy_step(&cfg, s, DestroyEvent::InstanceDeleted(true));
    assert!(destroy_reply_of(c).is_success());
}

#[test]
fn snapshot_wait_needs_strict_growth() {
    let cfg = config("srv", "base");
    let before = vec![snapshot("old", "base"), snapshot("b", "x")];
    let mut s = destroy_until_awaiting(&cfg, before);
    for _ in 0..10 {
        let same = vec![snapshot("old", "base"), snapshot("c", "base")];
        let (s2, c) = destroy_step(&cfg, s, DestroyEvent::SnapshotsListed(same));
        s = s2;
        assert!(matches!(c, Some(DestroyCommand::ListSnapshots { delay_secs: 20 })));
        assert!(matches!(s, DestroyState::AwaitingSnapshot { before_len: 2, .. }));
    }
}

#[test]
fn destroy_not_running() {
    let cfg = config("srv", "base");
    let (s, _) = destroy_start();
    let (s, c) = destroy_step(&cfg, s, DestroyEvent::InstancesListed(vec![droplet(1, "SRV", None)]));
    assert!(matches!(s, DestroyState::Finished));
    assert_eq!(destroy_reply_of(c).message(), "not running");
}

#[test]
fn destroy_shutdown_rejected() {
    let cfg = config("srv", "base");
    let (s, _) = destroy_start();
    let (s, _) = destroy_step(&cfg, s, DestroyEvent::InstancesListed(vec![droplet(9, "srv", None)]));
    let (s, c) = destroy_step(&cfg, s, DestroyEvent::ShutdownAnswered(false));
    assert!(matches!(s, DestroyState::Finished));
    assert_eq!(destroy_reply_of(c).message(), "Failed to shutdown droplet!");
}

#[test]
fn destroy_snapshot_rejected() {
    let cfg = config("srv", "base");
    let (s, _) = destroy_start();
    let (s, _) = destroy_step(&cfg, s, DestroyEvent::InstancesListed(vec![droplet(9, "srv", None)]));
    let (s, _) = destroy_step(&cfg, s, DestroyEvent::ShutdownAnswered(true));
    let (s, _) = destroy_step(&cfg, s, DestroyEvent::SnapshotsListed(vec![snapshot("old", "base")]));
    let (s, c) = destroy_step(&cfg, s, DestroyEvent::SnapshotRequested(false));
    assert!(matches!(s, DestroyState::Finished));
    assert_eq!(destroy_reply_of(c).message(), "Failed to take snapshot! Exiting.");
}

#[test]
fn destroy_instance_delete_rejected() {
    let cfg = config("srv", "base");
    let s = destroy_until_awaiting(&cfg, vec![]);
    let (s, c) = destroy_step(&cfg, s, DestroyEvent::SnapshotsListed(vec![snapshot("n", "base")]));
    assert!(matches!(c, Some(DestroyCommand::DeleteInstance { droplet_id: 9 })));
    let (s, c) = destroy_step(&cfg, s, DestroyEvent::InstanceDeleted(false));
    assert!(matches!(s, DestroyState::Finished));
    assert_eq!(destroy_reply_of(c).message(), "Failed to delete droplet!");
}

#[test]
fn guard_admits_one_workflow_at_a_time() {
    let mut g = WorkflowGuard::new();
    assert!(!g.is_busy());
    assert!(g.try_begin());
    assert!(g.is_busy());
    assert!(!g.try_begin());
    g.finish();
    assert!(!g.is_busy());
    assert!(g.try_begin());
    assert!(!g.cancel_requested());
    let r = busy_response();
    assert!(!r.is_success());
    assert_eq!(r.message(), "Another operation is already running!");
}

#[test]
fn chat_commands() {
    assert!(matches!(parse_command("!create"), Some(BotCommand::Create)));
    assert!(matches!(parse_command("!destroy"), Some(BotCommand::Destroy)));
    assert!(matches!(parse_command("!cancel"), Some(BotCommand::Cancel)));
    assert!(parse_command("!create ").is_none());
    assert!(parse_command("!Create").is_none());
    assert!(parse_command("").is_none());
    assert_eq!(acknowledgement(BotCommand::Create), "Creating server...\nThis process might take a few minutes.");
    assert_eq!(acknowledgement(BotCommand::Destroy), "Destroying server...\nThis process might take a few minutes.");
    assert_eq!(POLL_INTERVAL_SECS, 20);
}

#[test]
fn cancel_stops_the_address_wait() {
    let cfg = config("srv", "base");
    let s = provision_until_created(&cfg);
    let (s, c) = provision_step(&cfg, s, ProvisionEvent::Cancelled);
    assert!(matches!(s, ProvisionState::Finished));
    let r = reply_of(c);
    assert!(!r.is_success());
    assert_eq!(r.message(), "cancelled");
}

#[test]
fn cancel_is_ignored_outside_a_wait() {
    let cfg = config("srv", "base");
    let (s, _) = provision_start();
    let (s, c) = provision_step(&cfg, s, ProvisionEvent::Cancelled);
    assert!(matches!(s, ProvisionState::Checking));
    assert!(c.is_none());
    let (s, _) = destroy_start();
    let (s, c) = destroy_step(&cfg, s, DestroyEvent::Cancelled);
    assert!(matches!(s, DestroyState::Checking));
    assert!(c.is_none());
}

#[test]
fn cancel_stops_the_snapshot_wait_without_deleting() {
    let cfg = config("srv", "base");
    let s = destroy_until_awaiting(&cfg, vec![snapshot("old", "base")]);
    let (s, c) = destroy_step(&cfg, s, DestroyEvent::Cancelled);
    assert!(matches!(s, DestroyState::Finished));
    assert_eq!(destroy_reply_of(c).message(), "cancelled");
}

#[test]
fn guard_cancellation_requests() {
    let mut g = WorkflowGuard::new();
    assert!(!g.request_cancel());
    assert!(!g.cancel_requested());
    assert!(g.try_begin());
    assert!(g.request_cancel());
    assert!(g.cancel_requested());
    assert!(!g.try_begin());
    assert!(g.cancel_requested());
    g.finish();
    assert!(!g.cancel_requested());
    assert!(g.try_begin());
    assert!(!g.cancel_requested());
    assert_eq!(cancel_response(true).message(), "cancelling");
    assert!(cancel_response(true).is_success());
    assert_eq!(cancel_response(false).message(), "nothing to cancel");
    assert!(!cancel_response(false).is_success());
    assert_eq!(acknowledgement(BotCommand::Cancel), "Cancelling...");
}
