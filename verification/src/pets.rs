//! Discrete pet states, per-instance broadcast rate limits, and the pet runtime.

use std::collections::BTreeMap;
use std::time::Instant;
use uuid::Uuid;
use vstd::prelude::*;

use crate::ids::{random_uuid_value, uuid_from_u128, uuid_to_u128, uuid_value};
use crate::shared::{EventBus, PetSyncState, ZenPawsEvent};
use crate::time::{duration_as_nanos, duration_nanos, instant_duration_since, instant_ticks};

verus! {

broadcast use vstd::laws_cmp::group_laws_cmp;

/// The shortest gap between two state broadcasts of one pet: 500 ms.
pub const BROADCAST_INTERVAL_NANOS: u128 = 500_000_000;

/// Runtime behavior quality setting.
#[derive(Clone, Copy, Debug, PartialEq, Eq, Structural)]
pub enum PerformanceMode {
    Full,
    Reduced,
}

/// Discrete pet states; coordinates and animation frames stay local.
#[derive(Clone, Copy, Debug, PartialEq, Eq, Structural)]
pub enum PetState {
    Away,
    Celebrate,
    Fight,
    Idle,
    Jump,
    Notification,
    Offline,
    Play,
    Run,
    Sleep,
    Typing,
    Walk,
}

/// The synchronized form of a state, for the states other peers may see.
pub open spec fn sync_state_of(state: PetState) -> Option<PetSyncState> {
    match state {
        PetState::Away => Some(PetSyncState::Away),
        PetState::Celebrate => Some(PetSyncState::Celebrate),
        PetState::Notification => Some(PetSyncState::Notification),
        PetState::Offline => Some(PetSyncState::Offline),
        PetState::Play => Some(PetSyncState::Play),
        PetState::Sleep => Some(PetSyncState::Sleep),
        PetState::Typing => Some(PetSyncState::Typing),
        _ => None,
    }
}

impl PetState {
    /// Returns the synchronized representation when this state is network-visible.
    pub fn sync_state(self) -> (sync: Option<PetSyncState>)
        ensures
            sync == sync_state_of(self),
    {
        match self {
            PetState::Away => Some(PetSyncState::Away),
            PetState::Celebrate => Some(PetSyncState::Celebrate),
            PetState::Notification => Some(PetSyncState::Notification),
            PetState::Offline => Some(PetSyncState::Offline),
            PetState::Play => Some(PetSyncState::Play),
            PetState::Sleep => Some(PetSyncState::Sleep),
            PetState::Typing => Some(PetSyncState::Typing),
            PetState::Fight | PetState::Idle | PetState::Jump | PetState::Run | PetState::Walk => None,
        }
    }
}

/// Law: the movement states (fight, idle, jump, run, walk) never reach the
/// network, and every other state does.
pub proof fn lemma_movement_stays_local(state: PetState)
    ensures
        (sync_state_of(state) is None) <==> (state == PetState::Fight || state == PetState::Idle
            || state == PetState::Jump || state == PetState::Run || state == PetState::Walk),
{
}

/// The local movement a cursor calls for: idle when the cursor is near the
/// pet, running when it moves fast in full performance mode, and walking
/// otherwise. Distances and speeds are measured where the cursor is sampled.
pub open spec fn movement_for(cursor_is_near: bool, mode: PerformanceMode, cursor_is_fast: bool) -> PetState {
    if cursor_is_near {
        PetState::Idle
    } else if mode == PerformanceMode::Full && cursor_is_fast {
        PetState::Run
    } else {
        PetState::Walk
    }
}

/// Chooses the local movement state from the sampled cursor: near means
/// within 8 px of the pet, fast means above 1,200 px/s.
pub fn movement_state(cursor_is_near: bool, mode: PerformanceMode, cursor_is_fast: bool) -> (state: PetState)
    ensures
        state == movement_for(cursor_is_near, mode, cursor_is_fast),
        cursor_is_near ==> state == PetState::Idle,
        !cursor_is_near && mode == PerformanceMode::Full && cursor_is_fast ==> state == PetState::Run,
        !cursor_is_near && !(mode == PerformanceMode::Full && cursor_is_fast) ==> state == PetState::Walk,
{
    if cursor_is_near {
        PetState::Idle
    } else if mode == PerformanceMode::Full && cursor_is_fast {
        PetState::Run
    } else {
        PetState::Walk
    }
}

/// Law: a cursor near the pet keeps it idle, whatever the mode and the
/// cursor's speed; away from the pet it runs exactly when the cursor is fast
/// in full performance mode, and walks otherwise.
pub proof fn lemma_movement_choice(mode: PerformanceMode, cursor_is_fast: bool)
    ensures
        movement_for(true, mode, cursor_is_fast) == PetState::Idle,
        movement_for(false, PerformanceMode::Full, true) == PetState::Run,
        movement_for(false, PerformanceMode::Full, false) == PetState::Walk,
        movement_for(false, PerformanceMode::Reduced, cursor_is_fast) == PetState::Walk,
{
}

/// Law: cursor-driven movement never produces a network-visible state, so
/// cursor positions and movement never leave the machine.
pub proof fn lemma_cursor_movement_is_local(cursor_is_near: bool, mode: PerformanceMode, cursor_is_fast: bool)
    ensures
        sync_state_of(movement_for(cursor_is_near, mode, cursor_is_fast)) is None,
        mode == PerformanceMode::Reduced ==> movement_for(cursor_is_near, mode, cursor_is_fast) != PetState::Run,
{
}

/// Pet state transition failures.
#[derive(Clone, Copy, Debug, PartialEq, Eq, Structural)]
pub enum PetStateError {
    RateLimited,
}

/// The abstract state of a pet instance; instants are positions on the monotonic clock.
pub ghost struct PetInstanceView {
    pub id: u128,
    pub last_broadcast: Option<int>,
    pub last_broadcast_state: Option<PetState>,
    pub state: PetState,
}

/// Local state and outbound synchronization policy for one pet instance.
#[derive(Debug)]
pub struct PetInstance {
    id: u128,
    last_broadcast: Option<Instant>,
    last_broadcast_state: Option<PetState>,
    state: PetState,
}

impl View for PetInstance {
    type V = PetInstanceView;

    closed spec fn view(&self) -> PetInstanceView {
        PetInstanceView {
            id: self.id,
            last_broadcast: match self.last_broadcast {
                Some(t) => Some(instant_ticks(t)),
                None => None,
            },
            last_broadcast_state: self.last_broadcast_state,
            state: self.state,
        }
    }
}

/// The outcome of setting `state` at time `now` on a pet: the state always
/// changes; a state equal to the last broadcast one is not broadcast again;
/// another state is refused while the last broadcast is under 500 ms old,
/// and is broadcast otherwise.
pub open spec fn set_state_outcome(pet: PetInstanceView, state: PetState, now: int) -> (PetInstanceView, Result<bool, PetStateError>) {
    let changed = PetInstanceView { state, ..pet };
    if pet.last_broadcast_state == Some(state) {
        (changed, Ok(false))
    } else if pet.last_broadcast matches Some(last) && (if now >= last { now - last } else { 0 }) < BROADCAST_INTERVAL_NANOS {
        (changed, Err(PetStateError::RateLimited))
    } else {
        (PetInstanceView { last_broadcast: Some(now), last_broadcast_state: Some(state), ..changed }, Ok(true))
    }
}

impl PetInstance {
    /// Creates a local pet in its idle state, with a fresh random identifier.
    pub fn new() -> (pet: Self)
        ensures
            pet@.last_broadcast is None,
            pet@.last_broadcast_state is None,
            pet@.state == PetState::Idle,
    {
        PetInstance { id: random_uuid_value(), last_broadcast: None, last_broadcast_state: None, state: PetState::Idle }
    }

    /// Returns the stable local instance ID.
    pub fn id(&self) -> (id: Uuid)
        ensures
            uuid_value(id) == self@.id,
    {
        uuid_from_u128(self.id)
    }

    /// Returns the current local state.
    pub fn state(&self) -> (state: PetState)
        ensures
            state == self@.state,
    {
        self.state
    }

    /// Changes local state and reports whether a discrete event may be broadcast.
    pub fn set_state(&mut self, state: PetState, now: Instant) -> (result: Result<bool, PetStateError>)
        ensures
            (final(self)@, result) == set_state_outcome(old(self)@, state, instant_ticks(now)),
    {
        self.state = state;
        if self.last_broadcast_state == Some(state) {
            return Ok(false);
        }
        if let Some(last) = self.last_broadcast {
            let elapsed = duration_as_nanos(instant_duration_since(now, last));
            if elapsed < BROADCAST_INTERVAL_NANOS {
                return Err(PetStateError::RateLimited);
            }
        }
        self.last_broadcast = Some(now);
        self.last_broadcast_state = Some(state);
        Ok(true)
    }
}

/// Law: two broadcasts of one pet are at least 500 ms apart on the monotonic clock.
pub proof fn lemma_broadcasts_spaced(pet: PetInstanceView, state: PetState, now: int)
    requires
        set_state_outcome(pet, state, now).1 == Ok::<bool, PetStateError>(true),
        pet.last_broadcast is Some,
    ensures
        now - pet.last_broadcast->0 >= BROADCAST_INTERVAL_NANOS,
{
}

/// Law (the broadcast rule): setting a state always changes the local
/// state; it is broadcast exactly when it differs from the state last
/// broadcast and no broadcast happened in the 500 ms before `now`, which
/// then becomes the time of the last broadcast; it is refused exactly when it
/// differs and a broadcast happened within those 500 ms. A refused or
/// repeated state leaves the last broadcast, its time and its state, as
/// they were.
pub proof fn lemma_broadcast_rule(pet: PetInstanceView, state: PetState, now: int)
    ensures
        ({
            let (after, outcome) = set_state_outcome(pet, state, now);
            let repeated = pet.last_broadcast_state == Some(state);
            let recent = pet.last_broadcast matches Some(last) && now < last + 500_000_000;
            &&& after.state == state
            &&& after.id == pet.id
            &&& (outcome == Ok::<bool, PetStateError>(true) <==> !repeated && !recent)
            &&& (outcome == Ok::<bool, PetStateError>(false) <==> repeated)
            &&& (outcome == Err::<bool, PetStateError>(PetStateError::RateLimited) <==> !repeated && recent)
            &&& (outcome == Ok::<bool, PetStateError>(true) ==> after.last_broadcast == Some(now)
                && after.last_broadcast_state == Some(state))
            &&& (outcome != Ok::<bool, PetStateError>(true) ==> after.last_broadcast == pet.last_broadcast
                && after.last_broadcast_state == pet.last_broadcast_state)
        }),
{
}

/// Law: a refused change does not restart the 500 ms window; a different
/// state set 500 ms or more after the last actual broadcast is broadcast.
pub proof fn lemma_refusal_keeps_window(pet: PetInstanceView, refused: PetState, at: int, next: PetState, later: int)
    requires
        set_state_outcome(pet, refused, at).1 == Err::<bool, PetStateError>(PetStateError::RateLimited),
        pet.last_broadcast matches Some(last) && later >= last + 500_000_000,
        pet.last_broadcast_state != Some(next),
    ensures
        set_state_outcome(set_state_outcome(pet, refused, at).0, next, later).1 == Ok::<bool, PetStateError>(true),
{
    lemma_broadcast_rule(pet, refused, at);
    lemma_broadcast_rule(set_state_outcome(pet, refused, at).0, next, later);
}

/// Law: repeating the state last broadcast is never broadcast again and never refused.
pub proof fn lemma_repeat_is_quiet(pet: PetInstanceView, now: int)
    requires
        pet.last_broadcast_state matches Some(s),
    ensures
        set_state_outcome(pet, pet.last_broadcast_state->0, now).1 == Ok::<bool, PetStateError>(false),
{
}

/// Pet runtime failures.
#[derive(Clone, Copy, Debug, PartialEq, Eq, Structural)]
pub enum PetEngineError {
    UnknownManifest,
    UnknownInstance,
    State(PetStateError),
}

/// Local pet runtime independent of chat and networking services.
pub struct PetEngine {
    bus: EventBus,
    instances: BTreeMap<u128, PetInstance>,
    installed: Vec<String>,
    published: Ghost<Seq<(u128, PetSyncState)>>,
}

/// The abstract state of the pet runtime: the installed manifest IDs, the
/// live instances by identifier, and the pet state changes published so far.
pub ghost struct PetEngineView {
    pub installed: Seq<Seq<char>>,
    pub instances: Map<u128, PetInstanceView>,
    pub published: Seq<(u128, PetSyncState)>,
}

impl View for PetEngine {
    type V = PetEngineView;

    closed spec fn view(&self) -> PetEngineView {
        PetEngineView {
            installed: self.installed@.map_values(|s: String| s@),
            instances: Map::new(|k: u128| self.instances@.contains_key(k), |k: u128| self.instances@[k]@),
            published: self.published@,
        }
    }
}

impl PetEngine {
    /// Creates an engine for the installed pet packages, given by manifest ID.
    pub fn new(installed: Vec<String>, bus: EventBus) -> (engine: Self)
        ensures
            engine@.installed == installed@.map_values(|s: String| s@),
            engine@.instances == Map::<u128, PetInstanceView>::empty(),
            engine@.published == Seq::<(u128, PetSyncState)>::empty(),
    {
        let engine = PetEngine { bus, instances: BTreeMap::new(), installed, published: Ghost(Seq::empty()) };
        assert(engine@.instances =~= Map::<u128, PetInstanceView>::empty());
        engine
    }

    fn is_installed(&self, manifest_id: &str) -> (installed: bool)
        ensures
            installed == self@.installed.contains(manifest_id@),
    {
        let wanted = manifest_id.to_string();
        let mut i: usize = 0;
        while i < self.installed.len()
            invariant
                i <= self.installed@.len(),
                wanted@ == manifest_id@,
                forall|j: int| 0 <= j < i ==> self.installed@[j]@ != manifest_id@,
            decreases self.installed@.len() - i,
        {
            if self.installed[i] == wanted {
                assert(self@.installed[i as int] == manifest_id@);
                return true;
            }
            i = i + 1;
        }
        proof {
            if self@.installed.contains(manifest_id@) {
                let j = choose|j: int| 0 <= j < self@.installed.len() && self@.installed[j] == manifest_id@;
                assert(self.installed@[j]@ == manifest_id@);
            }
        }
        false
    }

    /// Creates one local instance for an installed manifest ID.
    pub fn create_instance(&mut self, manifest_id: &str) -> (id: Result<Uuid, PetEngineError>)
        ensures
            !old(self)@.installed.contains(manifest_id@) ==> {
                &&& id == Err::<Uuid, PetEngineError>(PetEngineError::UnknownManifest)
                &&& final(self)@ == old(self)@
            },
            old(self)@.installed.contains(manifest_id@) ==> (id matches Ok(u) && {
                let pet = final(self)@.instances[uuid_value(u)];
                &&& final(self)@.instances == old(self)@.instances.insert(uuid_value(u), pet)
                &&& pet.state == PetState::Idle
                &&& pet.last_broadcast is None
                &&& pet.last_broadcast_state is None
                &&& final(self)@.installed == old(self)@.installed
                &&& final(self)@.published == old(self)@.published
            }),
    {
        if !self.is_installed(manifest_id) {
            return Err(PetEngineError::UnknownManifest);
        }
        let instance = PetInstance::new();
        let key = instance.id;
        self.instances.insert(key, instance);
        let id = uuid_from_u128(key);
        assert(final(self)@.instances =~= old(self)@.instances.insert(key, final(self)@.instances[key]));
        Ok(id)
    }

    /// Updates a local instance and publishes only a permitted discrete event.
    pub fn set_state(&mut self, instance_id: Uuid, state: PetState, now: Instant) -> (result: Result<(), PetEngineError>)
        ensures
            ({
                let key = uuid_value(instance_id);
                if !old(self)@.instances.contains_key(key) {
                    &&& result == Err::<(), PetEngineError>(PetEngineError::UnknownInstance)
                    &&& final(self)@ == old(self)@
                } else {
                    let (pet, outcome) = set_state_outcome(old(self)@.instances[key], state, instant_ticks(now));
                    &&& final(self)@.instances == old(self)@.instances.insert(key, pet)
                    &&& final(self)@.installed == old(self)@.installed
                    &&& match outcome {
                        Err(e) => result == Err::<(), PetEngineError>(PetEngineError::State(e))
                            && final(self)@.published == old(self)@.published,
                        Ok(broadcast) => result is Ok && final(self)@.published == if broadcast && sync_state_of(state) is Some {
                            old(self)@.published.push((key, sync_state_of(state)->0))
                        } else {
                            old(self)@.published
                        },
                    }
                }
            }),
    {
        let key = uuid_to_u128(instance_id);
        let mut instance = match self.instances.remove(&key) {
            Some(instance) => instance,
            None => {
                assert(final(self)@ == old(self)@) by {
                    assert(self.instances@ =~= old(self).instances@);
                    assert(final(self)@.instances =~= old(self)@.instances);
                }
                return Err(PetEngineError::UnknownInstance);
            },
        };
        let outcome = instance.set_state(state, now);
        self.instances.insert(key, instance);
        assert(self@.instances =~= old(self)@.instances.insert(key, set_state_outcome(old(self)@.instances[key], state, instant_ticks(now)).0));
        match outcome {
            Err(error) => Err(PetEngineError::State(error)),
            Ok(broadcast) => {
                if broadcast {
                    if let Some(sync_state) = state.sync_state() {
                        self.published = Ghost(self.published@.push((key, sync_state)));
                        self.bus.publish(ZenPawsEvent::PetStateChanged { pet_instance: key, state: sync_state });
                    }
                }
                Ok(())
            },
        }
    }
}

/// Sprite-sheet metadata for one visible pet state.
#[derive(Clone, Debug, PartialEq, Eq)]
pub struct SpriteState {
    pub fps: u8,
    pub frame_count: u16,
    pub sprite: String,
}

impl SpriteState {
    /// Whether the sprite sheet animates: it has frames and a frame rate.
    /// Where the sprite file lies is checked against the package directory.
    pub fn has_frames(&self) -> (animates: bool)
        ensures
            animates == (self.frame_count > 0 && self.fps > 0),
    {
        self.frame_count > 0 && self.fps > 0
    }
}

/// Whether a manifest ID uses only lowercase ASCII letters, digits and `-`.
pub open spec fn valid_manifest_id(id: Seq<char>) -> bool {
    &&& id.len() > 0
    &&& forall|i: int| 0 <= i < id.len() ==> ('a' <= #[trigger] id[i] <= 'z' || '0' <= id[i] <= '9' || id[i] == '-')
}

/// Checks a pet manifest's identifier and display name; the positive scale
/// is checked where the manifest's floating-point fields are read.
pub fn manifest_metadata_is_valid(id: &str, display_name: &str, scale_is_positive: bool) -> (valid: bool)
    ensures
        valid == (valid_manifest_id(id@) && display_name@.len() > 0 && scale_is_positive),
{
    if id.is_empty() || display_name.is_empty() || !scale_is_positive {
        return false;
    }
    let mut ok = true;
    for c in iter: id.chars()
        invariant
            iter.seq() == id@,
            ok == (forall|i: int| 0 <= i < iter.index() ==> ('a' <= #[trigger] id@[i] <= 'z' || '0' <= id@[i] <= '9' || id@[i] == '-')),
    {
        if !(('a' <= c && c <= 'z') || ('0' <= c && c <= '9') || c == '-') {
            ok = false;
        }
    }
    ok
}

} // verus!
