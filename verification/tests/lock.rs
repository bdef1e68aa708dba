use ui_style::lock::{absolute_position_lock, style_locked, LockableStyleAttribute, LockedStyleAttributes};

#[test]
fn default_locks_nothing() {
    let locked = LockedStyleAttributes::default();
    assert!(!locked.contains(LockableStyleAttribute::Top));
    assert!(!locked.contains(LockableStyleAttribute::FluxInteraction));
}

#[test]
fn lock_locks_only_its_attribute() {
    let mut locked = LockedStyleAttributes::default();
    assert!(locked.lock(LockableStyleAttribute::ZIndex));
    assert!(locked.contains(LockableStyleAttribute::ZIndex));
    assert!(!locked.contains(LockableStyleAttribute::Image));
    assert!(!locked.lock(LockableStyleAttribute::ZIndex));
    assert!(locked.contains(LockableStyleAttribute::ZIndex));
}

#[test]
fn style_locked_needs_check_lock_and_a_lock() {
    let mut locked = LockedStyleAttributes::default();
    locked.lock(LockableStyleAttribute::Left);
    assert!(style_locked(true, Some(&locked), LockableStyleAttribute::Left));
    assert!(!style_locked(false, Some(&locked), LockableStyleAttribute::Left));
    assert!(!style_locked(true, Some(&locked), LockableStyleAttribute::Top));
    assert!(!style_locked(true, None, LockableStyleAttribute::Left));
}

#[test]
fn absolute_position_lock_reports_first_locked() {
    let mut locked = LockedStyleAttributes::default();
    assert_eq!(absolute_position_lock(true, Some(&locked)), None);
    locked.lock(LockableStyleAttribute::Left);
    assert_eq!(absolute_position_lock(true, Some(&locked)), Some(LockableStyleAttribute::Left));
    locked.lock(LockableStyleAttribute::Top);
    assert_eq!(absolute_position_lock(true, Some(&locked)), Some(LockableStyleAttribute::Top));
    locked.lock(LockableStyleAttribute::PositionType);
    assert_eq!(
        absolute_position_lock(true, Some(&locked)),
        Some(LockableStyleAttribute::PositionType)
    );
    assert_eq!(absolute_position_lock(false, Some(&locked)), None);
    assert_eq!(absolute_position_lock(true, None), None);
}
