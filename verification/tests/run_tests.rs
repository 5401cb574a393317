use idshift::identity::ObjectIdentity;
use idshift::offset::{IdKind, OffsetConfig};
use idshift::run::{Event, Run, Traversal};
use idshift::shifter::{Decision, Failure, ObjectMeta, OwnerChange, ShiftOptions, ShiftOutcome};

fn settings(recurse: bool, dry_run: bool, uid_offset: i64, gid_offset: i64) -> ShiftOptions {
    ShiftOptions {
        recurse,
        verbose: false,
        dry_run,
        offsets: OffsetConfig::new(uid_offset, gid_offset).unwrap(),
    }
}

fn entry(inode: u64, device: u64, uid: u32, gid: u32) -> Event {
    Event::Entry(Some(ObjectMeta { inode, device, uid, gid }))
}

fn is_attempt(decision: &Decision) -> bool {
    !matches!(decision, Decision::Skip)
}

#[test]
fn a_run_keeps_its_settings() {
    let options = settings(true, false, 12, -34);
    let mut run = Run::new(options);
    assert_eq!(run.options(), options);
    run.handle(entry(1, 1, 100, 100));
    assert_eq!(run.options(), options);
    assert_eq!(run.options().offsets.uid_offset(), 12);
    assert_eq!(run.options().offsets.gid_offset(), -34);
}

#[test]
fn without_recursion_only_the_given_path_is_handled() {
    let run = Run::new(settings(false, false, 1, 1));
    assert_eq!(run.traversal(), Traversal::RootOnly);
}

#[test]
fn with_recursion_the_walk_descends() {
    let run = Run::new(settings(true, false, 1, 1));
    assert_eq!(run.traversal(), Traversal::Descend);
}

#[test]
fn traversal_is_the_same_before_and_after_entries() {
    let mut run = Run::new(settings(false, false, 1, 1));
    run.handle(entry(1, 1, 0, 0));
    run.handle(Event::TraversalFailed);
    assert_eq!(run.traversal(), Traversal::RootOnly);
}

#[test]
fn a_new_run_has_seen_nothing() {
    let run = Run::new(settings(true, false, 1, 1));
    assert!(!run.has_seen(ObjectIdentity { inode: 1, device: 1 }));
}

#[test]
fn an_object_under_two_paths_is_attempted_once() {
    let mut run = Run::new(settings(true, false, 1000, 2000));
    // the same file, reached through two given paths and once more in between
    let decisions = [
        run.handle(entry(10, 1, 500, 500)),
        run.handle(entry(11, 1, 500, 500)),
        run.handle(entry(10, 1, 1500, 2500)),
        run.handle(entry(12, 1, 500, 500)),
        run.handle(entry(10, 1, 1500, 2500)),
    ];
    assert_eq!(
        decisions[0],
        Decision::Shift {
            change: OwnerChange { old_uid: 500, old_gid: 500, new_uid: 1500, new_gid: 2500 },
            announce: false,
            apply: true,
        }
    );
    assert_eq!(decisions[2], Decision::Skip);
    assert_eq!(decisions[4], Decision::Skip);
    assert_eq!(decisions.iter().filter(|decision| is_attempt(decision)).count(), 3);
    assert!(run.has_seen(ObjectIdentity { inode: 10, device: 1 }));
    assert!(run.has_seen(ObjectIdentity { inode: 11, device: 1 }));
    assert!(run.has_seen(ObjectIdentity { inode: 12, device: 1 }));
    assert!(!run.has_seen(ObjectIdentity { inode: 1, device: 10 }));
}

#[test]
fn the_same_path_given_twice_is_handled_once() {
    let mut run = Run::new(settings(false, false, 1, 1));
    assert!(is_attempt(&run.handle(entry(77, 3, 0, 0))));
    assert_eq!(run.handle(entry(77, 3, 1, 1)), Decision::Skip);
}

#[test]
fn a_failed_step_is_reported_and_the_run_goes_on() {
    let mut run = Run::new(settings(true, false, 1, 1));
    let failed = run.handle(Event::TraversalFailed);
    assert_eq!(failed, Decision::Reject(Failure::TraversalStep));
    assert_eq!(failed.outcome(false), ShiftOutcome::Failed(Failure::TraversalStep));
    let next = run.handle(entry(1, 1, 7, 8));
    assert_eq!(
        next,
        Decision::Shift {
            change: OwnerChange { old_uid: 7, old_gid: 8, new_uid: 8, new_gid: 9 },
            announce: false,
            apply: true,
        }
    );
    assert_eq!(run.handle(Event::TraversalFailed), Decision::Reject(Failure::TraversalStep));
}

#[test]
fn an_unreadable_entry_is_reported_and_marks_nothing_seen() {
    let mut run = Run::new(settings(true, false, 1, 1));
    assert_eq!(run.handle(Event::Entry(None)), Decision::Reject(Failure::MetadataRead));
    assert_eq!(run.handle(Event::Entry(None)), Decision::Reject(Failure::MetadataRead));
    assert!(!run.has_seen(ObjectIdentity { inode: 0, device: 0 }));
    assert!(is_attempt(&run.handle(entry(0, 0, 1, 1))));
}

#[test]
fn an_overflow_does_not_stop_the_run() {
    let mut run = Run::new(settings(true, false, -1, 0));
    assert_eq!(
        run.handle(entry(1, 1, 0, 0)),
        Decision::Reject(Failure::IdentityOverflow { kind: IdKind::User, old_id: 0, offset: -1 })
    );
    assert_eq!(
        run.handle(entry(2, 1, 1, 0)),
        Decision::Shift {
            change: OwnerChange { old_uid: 1, old_gid: 0, new_uid: 0, new_gid: 0 },
            announce: false,
            apply: true,
        }
    );
    assert_eq!(run.handle(entry(1, 1, 0, 0)), Decision::Skip);
}

#[test]
fn a_dry_run_decides_like_a_real_run_without_applying() {
    let events = [
        entry(1, 1, 0, 0),
        Event::TraversalFailed,
        entry(2, 1, 4_294_967_295, 5),
        Event::Entry(None),
        entry(1, 1, 0, 0),
        entry(3, 1, 4_294_967_294, 4_294_967_295),
    ];
    let mut real = Run::new(settings(true, false, 1, 1));
    let mut dry = Run::new(settings(true, true, 1, 1));
    for event in events {
        let proper = real.handle(event);
        let simulated = dry.handle(event);
        assert!(!simulated.mutates());
        match proper {
            Decision::Shift { change, announce, apply } => {
                assert!(apply);
                assert_eq!(simulated, Decision::Shift { change, announce, apply: false });
                assert_eq!(simulated.outcome(false), ShiftOutcome::DryRunSimulated);
            }
            other => assert_eq!(simulated, other),
        }
    }
    for inode in [1, 2, 3] {
        assert!(dry.has_seen(ObjectIdentity { inode, device: 1 }));
        assert!(real.has_seen(ObjectIdentity { inode, device: 1 }));
    }
}

#[test]
fn a_link_and_its_target_are_shifted_each_for_itself() {
    let mut run = Run::new(settings(true, false, 100, 100));
    // the link's own metadata: another inode and another owner than the target's
    let link = run.handle(entry(20, 1, 1000, 1000));
    assert_eq!(
        link,
        Decision::Shift {
            change: OwnerChange { old_uid: 1000, old_gid: 1000, new_uid: 1100, new_gid: 1100 },
            announce: false,
            apply: true,
        }
    );
    assert!(!run.has_seen(ObjectIdentity { inode: 21, device: 1 }));
    let target = run.handle(entry(21, 1, 2000, 3000));
    assert_eq!(
        target,
        Decision::Shift {
            change: OwnerChange { old_uid: 2000, old_gid: 3000, new_uid: 2100, new_gid: 3100 },
            announce: false,
            apply: true,
        }
    );
}
