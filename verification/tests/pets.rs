use std::time::{Duration, Instant};

use zenpaws::pets::{
    manifest_metadata_is_valid, PetEngine, PetEngineError, PetInstance, PetState, PetStateError,
};
use zenpaws::shared::{EventBus, PetSyncState, ZenPawsEvent};
use zenpaws::pets::{movement_state, PerformanceMode};
use zenpaws::chat::{check_pet_window_label, new_pet_window_label};

#[test]
fn deduplicates_and_rate_limits_broadcasts() {
    let mut pet = PetInstance::new();
    let now = Instant::now();
    assert!(pet
        .set_state(PetState::Typing, now)
        .expect("first state broadcasts"));
    assert!(!pet
        .set_state(PetState::Typing, now)
        .expect("same state deduplicates"));
    assert_eq!(
        pet.set_state(PetState::Sleep, now),
        Err(PetStateError::RateLimited)
    );
    assert!(pet
        .set_state(PetState::Sleep, now + Duration::from_millis(500))
        .expect("rate window passes"));
    assert!(PetState::Typing.sync_state().is_some());
    assert!(PetState::Walk.sync_state().is_none());
}

#[test]
fn a_refused_state_still_changes_locally() {
    let mut pet = PetInstance::new();
    let now = Instant::now();
    assert_eq!(pet.state(), PetState::Idle);
    assert_eq!(pet.set_state(PetState::Play, now), Ok(true));
    assert_eq!(
        pet.set_state(PetState::Away, now + Duration::from_millis(499)),
        Err(PetStateError::RateLimited)
    );
    assert_eq!(pet.state(), PetState::Away);
    assert_eq!(pet.set_state(PetState::Play, now + Duration::from_millis(499)), Ok(false));
}

#[test]
fn movement_states_stay_local() {
    let local = [PetState::Fight, PetState::Idle, PetState::Jump, PetState::Run, PetState::Walk];
    for state in local {
        assert_eq!(state.sync_state(), None);
    }
    assert_eq!(PetState::Away.sync_state(), Some(PetSyncState::Away));
    assert_eq!(PetState::Celebrate.sync_state(), Some(PetSyncState::Celebrate));
    assert_eq!(PetState::Notification.sync_state(), Some(PetSyncState::Notification));
    assert_eq!(PetState::Offline.sync_state(), Some(PetSyncState::Offline));
    assert_eq!(PetState::Play.sync_state(), Some(PetSyncState::Play));
    assert_eq!(PetState::Sleep.sync_state(), Some(PetSyncState::Sleep));
    assert_eq!(PetState::Typing.sync_state(), Some(PetSyncState::Typing));
}

#[test]
fn engine_publishes_only_network_visible_changes() {
    let bus = EventBus::new(8);
    let mut events = bus.subscribe();
    let mut engine = PetEngine::new(vec!["cat".to_string()], bus);
    assert_eq!(engine.create_instance("dog").unwrap_err(), PetEngineError::UnknownManifest);
    let id = engine.create_instance("cat").expect("installed manifest");
    let now = Instant::now();
    engine.set_state(id, PetState::Walk, now).expect("local movement");
    engine
        .set_state(id, PetState::Sleep, now + Duration::from_secs(1))
        .expect("sleep broadcasts");
    assert_eq!(
        engine.set_state(id, PetState::Typing, now + Duration::from_secs(1)),
        Err(PetEngineError::State(PetStateError::RateLimited))
    );
    assert_eq!(
        engine.set_state(uuid::Uuid::from_u128(7), PetState::Idle, now),
        Err(PetEngineError::UnknownInstance)
    );
    assert_eq!(
        events.try_recv().expect("sleep was published"),
        ZenPawsEvent::PetStateChanged { pet_instance: id.as_u128(), state: PetSyncState::Sleep }
    );
    assert!(events.try_recv().is_err());
}

#[test]
fn validates_manifest_metadata() {
    assert!(manifest_metadata_is_valid("sleepy-cat-2", "Sleepy Cat", true));
    assert!(!manifest_metadata_is_valid("", "Sleepy Cat", true));
    assert!(!manifest_metadata_is_valid("Sleepy", "Sleepy Cat", true));
    assert!(!manifest_metadata_is_valid("sleepy_cat", "Sleepy Cat", true));
    assert!(!manifest_metadata_is_valid("cat", "", true));
    assert!(!manifest_metadata_is_valid("cat", "Cat", false));
}

#[test]
fn chooses_movement_from_the_sampled_cursor() {
    assert_eq!(movement_state(true, PerformanceMode::Full, true), PetState::Idle);
    assert_eq!(movement_state(false, PerformanceMode::Full, false), PetState::Walk);
    assert_eq!(movement_state(false, PerformanceMode::Full, true), PetState::Run);
    assert_eq!(movement_state(false, PerformanceMode::Reduced, true), PetState::Walk);
    for near in [false, true] {
        for fast in [false, true] {
            for mode in [PerformanceMode::Full, PerformanceMode::Reduced] {
                assert_eq!(movement_state(near, mode, fast).sync_state(), None);
            }
        }
    }
}

#[test]
fn pet_windows_are_labelled_in_the_pet_scope() {
    let first = new_pet_window_label("sleepy-cat");
    let second = new_pet_window_label("sleepy-cat");
    assert!(first.starts_with("pet-sleepy-cat-"));
    assert_eq!(first.len(), "pet-sleepy-cat-".len() + 36);
    assert_ne!(first, second);
    assert_eq!(check_pet_window_label(&first), Ok(()));
}
