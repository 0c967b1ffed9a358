use nexus_core::auth::{AcquireOutcome, LockCommand, MultiInstanceManager};
use nexus_core::error::NexusError;

#[test]
fn enabling_twice_holds_both_times() {
    let mut manager = MultiInstanceManager::new();
    assert!(!manager.is_enabled());
    assert_eq!(manager.enable(), LockCommand::Acquire);
    assert_eq!(manager.acquired(AcquireOutcome::Granted(41)), Ok(LockCommand::Nothing));
    assert!(manager.is_enabled());
    // the second time there is nothing to ask the system for
    assert_eq!(manager.enable(), LockCommand::Nothing);
    assert!(manager.is_enabled());
    assert_eq!(manager.disable(), LockCommand::Release(41));
}

#[test]
fn a_lock_held_elsewhere_is_a_conflict() {
    let mut manager = MultiInstanceManager::new();
    assert_eq!(manager.enable(), LockCommand::Acquire);
    assert_eq!(manager.acquired(AcquireOutcome::Busy), Err(NexusError::LaunchConflict));
    assert!(!manager.is_enabled());
    assert_eq!(
        NexusError::LaunchConflict.message(),
        "Roblox is already running - close it first to enable multi-instance"
    );
    // a later attempt starts over
    assert_eq!(manager.enable(), LockCommand::Acquire);
}

#[test]
fn a_lock_that_cannot_be_made_is_reported() {
    let mut manager = MultiInstanceManager::new();
    assert_eq!(
        manager.acquired(AcquireOutcome::Unavailable),
        Err(NexusError::TransportFailure("Failed to create mutex".to_string()))
    );
    assert!(!manager.is_enabled());
}

#[test]
fn disable_releases_what_is_held() {
    let mut manager = MultiInstanceManager::default();
    assert_eq!(manager.disable(), LockCommand::Nothing);
    assert!(!manager.is_enabled());
    assert_eq!(manager.acquired(AcquireOutcome::Granted(u64::MAX)), Ok(LockCommand::Nothing));
    assert_eq!(manager.disable(), LockCommand::Release(u64::MAX));
    assert!(!manager.is_enabled());
    assert_eq!(manager.disable(), LockCommand::Nothing);
}

#[test]
fn toggle_releases_or_asks() {
    let mut manager = MultiInstanceManager::new();
    assert_eq!(manager.toggle(), LockCommand::Acquire);
    assert!(!manager.is_enabled());
    assert_eq!(manager.acquired(AcquireOutcome::Granted(3)), Ok(LockCommand::Nothing));
    assert!(manager.is_enabled());
    assert_eq!(manager.toggle(), LockCommand::Release(3));
    assert!(!manager.is_enabled());
}

#[test]
fn a_second_grant_is_handed_back() {
    let mut manager = MultiInstanceManager::new();
    assert_eq!(manager.acquired(AcquireOutcome::Granted(1)), Ok(LockCommand::Nothing));
    assert_eq!(manager.acquired(AcquireOutcome::Granted(2)), Ok(LockCommand::Release(2)));
    assert_eq!(manager.acquired(AcquireOutcome::Busy), Ok(LockCommand::Nothing));
    assert_eq!(manager.acquired(AcquireOutcome::Unavailable), Ok(LockCommand::Nothing));
    assert!(manager.is_enabled());
    assert_eq!(manager.disable(), LockCommand::Release(1));
}
