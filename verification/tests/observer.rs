use pc_custom::action::ProcessFileIdentity;
use pc_custom::game_profile::observer::{ObservedProcess, ProcessMatcher};
use pc_custom::game_profile::{GameProfileId, InstanceKey, ObservedEvent, ProfileBinding, TrackingMode};
use uuid::Uuid;

fn identity(seed: u8) -> ProcessFileIdentity {
    ProcessFileIdentity {
        volume_serial_number: u64::from(seed) + 1,
        file_id: [seed; 16],
    }
}

fn binding(path: &str, id: ProcessFileIdentity) -> ProfileBinding {
    ProfileBinding {
        canonical_path: path.to_owned(),
        file_identity: id,
        tracking: TrackingMode::ExactExecutable,
    }
}

fn proc(pid: u32, path: &str, id: Option<ProcessFileIdentity>) -> ObservedProcess {
    ObservedProcess {
        instance: InstanceKey {
            process_id: pid,
            creation_time_100ns: u64::from(pid) * 1000,
        },
        canonical_path: path.to_owned(),
        file_identity: id,
    }
}

fn pid(id: u32) -> InstanceKey {
    InstanceKey {
        process_id: id,
        creation_time_100ns: u64::from(id) * 1000,
    }
}

fn profile_id(seed: u128) -> GameProfileId {
    GameProfileId(Uuid::from_u128(seed).as_u128())
}

#[test]
fn detects_launch_then_exit() {
    let mut m = ProcessMatcher::new();
    let p = profile_id(1);
    let path = r"C:\Games\Example\game.exe";
    m.register(p, &binding(path, identity(7)));

    let events = m.observe(&[proc(100, path, Some(identity(7)))]);
    assert_eq!(events, vec![ObservedEvent::Launched { profile: p, instance: pid(100) }]);
    assert!(m.observe(&[proc(100, path, Some(identity(7)))]).is_empty());
    let events = m.observe(&[]);
    assert_eq!(events, vec![ObservedEvent::Exited { profile: p, instance: pid(100) }]);
}

#[test]
fn identity_mismatch_is_not_followed() {
    let mut m = ProcessMatcher::new();
    let p = profile_id(1);
    let path = r"C:\Games\Example\game.exe";
    m.register(p, &binding(path, identity(7)));
    assert!(m.observe(&[proc(100, path, Some(identity(9)))]).is_empty());
}

#[test]
fn unreadable_identity_is_treated_as_unknown_not_match() {
    let mut m = ProcessMatcher::new();
    let p = profile_id(1);
    let path = r"C:\Games\Example\game.exe";
    m.register(p, &binding(path, identity(7)));
    assert!(m.observe(&[proc(100, path, None)]).is_empty());
}

#[test]
fn pid_reuse_emits_exit_then_launch_for_new_instance() {
    let mut m = ProcessMatcher::new();
    let p = profile_id(1);
    let path = r"C:\Games\Example\game.exe";
    m.register(p, &binding(path, identity(7)));
    m.observe(&[proc(100, path, Some(identity(7)))]);

    let reused = ObservedProcess {
        instance: InstanceKey {
            process_id: 100,
            creation_time_100ns: 999_999,
        },
        canonical_path: path.to_owned(),
        file_identity: Some(identity(7)),
    };
    let events = m.observe(std::slice::from_ref(&reused));
    assert!(events.contains(&ObservedEvent::Exited { profile: p, instance: pid(100) }));
    assert!(events.contains(&ObservedEvent::Launched { profile: p, instance: reused.instance }));
}

#[test]
fn case_insensitive_path_match() {
    let mut m = ProcessMatcher::new();
    let p = profile_id(1);
    m.register(p, &binding(r"C:\Games\Example\game.exe", identity(7)));
    let events = m.observe(&[proc(100, r"c:\games\example\GAME.EXE", Some(identity(7)))]);
    assert_eq!(events.len(), 1);
}

#[test]
fn multiple_instances_tracked_independently() {
    let mut m = ProcessMatcher::new();
    let p = profile_id(1);
    let path = r"C:\Games\Example\game.exe";
    m.register(p, &binding(path, identity(7)));
    let events = m.observe(&[proc(100, path, Some(identity(7))), proc(200, path, Some(identity(7)))]);
    assert_eq!(events.len(), 2);
    let events = m.observe(&[proc(200, path, Some(identity(7)))]);
    assert_eq!(events, vec![ObservedEvent::Exited { profile: p, instance: pid(100) }]);
}

#[test]
fn incomplete_snapshot_never_emits_exit_and_retains_seen_instances() {
    let mut m = ProcessMatcher::new();
    let p = profile_id(1);
    let path = r"C:\Games\Example\game.exe";
    m.register(p, &binding(path, identity(7)));

    assert_eq!(
        m.observe(&[proc(100, path, Some(identity(7)))]),
        vec![ObservedEvent::Launched { profile: p, instance: pid(100) }]
    );
    assert!(m.observe_incomplete(&[], &[]).is_empty());
    assert!(m.observe_incomplete(&[], &[]).is_empty());
    assert_eq!(m.observe(&[]), vec![ObservedEvent::Exited { profile: p, instance: pid(100) }]);
}

#[test]
fn incomplete_snapshot_can_add_verified_launch_without_forgetting_prior_seen() {
    let mut m = ProcessMatcher::new();
    let p = profile_id(1);
    let path = r"C:\Games\Example\game.exe";
    m.register(p, &binding(path, identity(7)));
    m.observe(&[proc(100, path, Some(identity(7)))]);

    assert_eq!(
        m.observe_incomplete(&[proc(200, path, Some(identity(7)))], &[]),
        vec![ObservedEvent::Launched { profile: p, instance: pid(200) }]
    );

    let events = m.observe(&[]);
    assert_eq!(events.len(), 2);
    assert!(events.contains(&ObservedEvent::Exited { profile: p, instance: pid(100) }));
    assert!(events.contains(&ObservedEvent::Exited { profile: p, instance: pid(200) }));
}

#[test]
fn incomplete_snapshot_emits_only_individually_confirmed_exit() {
    let mut m = ProcessMatcher::new();
    let p = profile_id(1);
    let path = r"C:\Games\Example\game.exe";
    m.register(p, &binding(path, identity(7)));
    m.observe(&[proc(100, path, Some(identity(7))), proc(200, path, Some(identity(7)))]);

    let confirmed = [pid(100)];
    assert_eq!(
        m.observe_incomplete(&[], &confirmed),
        vec![ObservedEvent::Exited { profile: p, instance: pid(100) }]
    );
    assert_eq!(m.tracked_instances(), vec![pid(200)]);
}

#[test]
fn exits_before_unregister_cover_every_seen_instance_in_order() {
    let mut m = ProcessMatcher::new();
    let p = profile_id(1);
    let path = r"C:\Games\Example\game.exe";
    m.register(p, &binding(path, identity(7)));
    m.observe(&[proc(300, path, Some(identity(7))), proc(100, path, Some(identity(7)))]);
    assert_eq!(
        m.exit_events_before_unregister(p),
        vec![
            ObservedEvent::Exited { profile: p, instance: pid(100) },
            ObservedEvent::Exited { profile: p, instance: pid(300) },
        ]
    );
    assert_eq!(m.missing_instances(&[proc(300, path, Some(identity(7)))]), vec![pid(100)]);
    m.unregister(p);
    assert!(m.tracked_instances().is_empty());
    assert!(m.exit_events_before_unregister(p).is_empty());
}

#[test]
fn a_non_ascii_path_still_matches_byte_for_byte() {
    let mut m = ProcessMatcher::new();
    let p = profile_id(2);
    m.register(p, &binding(r"D:\ゲーム\Game.exe", identity(3)));
    assert_eq!(m.observe(&[proc(7, r"d:\ゲーム\game.EXE", Some(identity(3)))]).len(), 1);
    // A different non-ASCII character is a different path: the old instance
    // exits and the other process is not followed.
    assert_eq!(
        m.observe(&[proc(8, r"d:\ケーム\game.exe", Some(identity(3)))]),
        vec![ObservedEvent::Exited { profile: p, instance: pid(7) }]
    );
}

#[test]
fn re_registering_keeps_seen_instances_and_other_profiles() {
    let mut m = ProcessMatcher::new();
    let a = profile_id(1);
    let b = profile_id(2);
    let old_path = r"C:\Games\A\a.exe";
    let new_path = r"D:\Games\A\a.exe";
    let b_path = r"C:\Games\B\b.exe";
    m.register(a, &binding(old_path, identity(1)));
    m.register(b, &binding(b_path, identity(2)));
    let events = m.observe(&[proc(10, old_path, Some(identity(1))), proc(20, b_path, Some(identity(2)))]);
    assert_eq!(events.len(), 2);

    // The same instance under the new binding is not a new launch.
    m.register(a, &binding(new_path, identity(3)));
    let events = m.observe(&[proc(10, new_path, Some(identity(3))), proc(20, b_path, Some(identity(2)))]);
    assert!(events.is_empty());

    // The other profile is still watched.
    let events = m.observe(&[proc(10, new_path, Some(identity(3)))]);
    assert_eq!(events, vec![ObservedEvent::Exited { profile: b, instance: pid(20) }]);
}

#[test]
fn unregistering_forgets_only_that_profile() {
    let mut m = ProcessMatcher::new();
    let a = profile_id(1);
    let b = profile_id(2);
    let a_path = r"C:\Games\A\a.exe";
    let b_path = r"C:\Games\B\b.exe";
    m.register(a, &binding(a_path, identity(1)));
    m.register(b, &binding(b_path, identity(2)));
    m.unregister(a);
    let events = m.observe(&[proc(10, a_path, Some(identity(1))), proc(20, b_path, Some(identity(2)))]);
    assert_eq!(events, vec![ObservedEvent::Launched { profile: b, instance: pid(20) }]);
}

#[test]
fn a_fresh_profile_only_launches_on_an_incomplete_snapshot() {
    let mut m = ProcessMatcher::new();
    let p = profile_id(1);
    let path = r"C:\Games\Example\game.exe";
    m.register(p, &binding(path, identity(7)));
    let events = m.observe_incomplete(
        &[proc(100, path, Some(identity(7))), proc(200, path, None)],
        &[pid(300)],
    );
    assert_eq!(events, vec![ObservedEvent::Launched { profile: p, instance: pid(100) }]);
}
