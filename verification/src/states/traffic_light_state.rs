//! The state of the traffic light, the snapshot handed to readers, and the store
//! that owns the state and gates every access to it.
use crate::states::visitor_log::{
    enumerates, lemma_listing_counts_visitors, visits, CallerId, Visit, VisitorLog, Visitors,
};
use vstd::prelude::*;

verus! {

/// The state of the traffic light: the light that shows, and who set which light last.
#[derive(Debug)]
pub struct TrafficLightState {
    pub current_light: String,
    pub all_users: VisitorLog,
}

/// A [`TrafficLightState`] as plain values.
#[verifier::ext_equal]
pub struct TrafficLightStateView {
    pub current_light: Seq<char>,
    pub all_users: Visitors,
}

impl TrafficLightStateView {
    /// The state before anybody has switched the light: no light, no visitors.
    pub open spec fn unset() -> TrafficLightStateView {
        TrafficLightStateView { current_light: Seq::empty(), all_users: Map::empty() }
    }

    /// The state after `caller` has switched the light to `light`: that light shows,
    /// and `caller` is on record with it, in place of whatever was recorded for
    /// `caller` before.
    pub open spec fn switched(self, caller: CallerId, light: Seq<char>) -> TrafficLightStateView {
        TrafficLightStateView {
            current_light: light,
            all_users: self.all_users.insert(caller, light),
        }
    }
}

impl View for TrafficLightState {
    type V = TrafficLightStateView;

    open spec fn view(&self) -> TrafficLightStateView {
        TrafficLightStateView {
            current_light: self.current_light@,
            all_users: self.all_users@,
        }
    }
}

impl Clone for TrafficLightState {
    /// A second state with the same light and the same visitors.
    fn clone(&self) -> (copy: TrafficLightState)
        ensures
            copy@ == self@,
    {
        TrafficLightState {
            current_light: self.current_light.clone(),
            all_users: self.all_users.duplicate(),
        }
    }
}

impl Default for TrafficLightState {
    /// The state of [`TrafficLightState::new`].
    fn default() -> (state: TrafficLightState)
        ensures
            state@ == TrafficLightStateView::unset(),
    {
        TrafficLightState::new()
    }
}

impl TrafficLightState {
    /// A state with no light showing and no visitors.
    pub fn new() -> (state: TrafficLightState)
        ensures
            state@ == TrafficLightStateView::unset(),
    {
        proof {
            reveal_strlit("");
        }
        TrafficLightState { current_light: "".to_string(), all_users: VisitorLog::new() }
    }
}

/// What a reader gets: the light that shows and the visitors as a list.
#[derive(Debug, PartialEq, Eq)]
pub struct IoTrafficLightState {
    pub current_light: String,
    pub all_users: Vec<(CallerId, String)>,
}

/// An [`IoTrafficLightState`] as plain values.
#[verifier::ext_equal]
pub struct IoTrafficLightStateView {
    pub current_light: Seq<char>,
    pub all_users: Seq<Visit>,
}

impl IoTrafficLightStateView {
    /// The snapshot shows `state`: the same light, and every visitor of `state`
    /// listed once with its light. The order of the list is left open.
    pub open spec fn reflects(self, state: TrafficLightStateView) -> bool {
        &&& self.current_light == state.current_light
        &&& enumerates(self.all_users, state.all_users)
    }
}

impl View for IoTrafficLightState {
    type V = IoTrafficLightStateView;

    open spec fn view(&self) -> IoTrafficLightStateView {
        IoTrafficLightStateView {
            current_light: self.current_light@,
            all_users: visits(self.all_users@),
        }
    }
}

impl From<TrafficLightState> for IoTrafficLightState {
    /// Turns a state into the snapshot that shows it: the same light, and as many
    /// entries as the state has visitors, one for each.
    fn from(value: TrafficLightState) -> (snapshot: IoTrafficLightState)
        ensures
            snapshot@.reflects(value@),
            snapshot.all_users@.len() == value@.all_users.dom().len(),
    {
        let TrafficLightState { current_light, all_users } = value;
        let listing = all_users.entries();
        proof {
            lemma_listing_counts_visitors(visits(listing@), all_users@);
        }
        IoTrafficLightState { current_light, all_users: listing }
    }
}

/// The visitor table picks the order in which the snapshot lists the visitors, so
/// the snapshot is no function of the state as Verus sees it: `from` keeps to its
/// own contract, and to no `from_spec`.
impl vstd::std_specs::convert::FromSpecImpl<TrafficLightState> for IoTrafficLightState {
    open spec fn obeys_from_spec() -> bool {
        false
    }

    open spec fn from_spec(value: TrafficLightState) -> IoTrafficLightState {
        arbitrary()
    }
}

/// Why the store refused a request.
#[derive(Clone, Copy, Debug, PartialEq, Eq, Structural)]
pub enum AccessError {
    /// The state was asked for before [`TrafficLightState::init_state`] had run.
    UninitializedState,
    /// The access asked for cannot stand beside a handle that is still out.
    ConflictingAccess,
    /// [`TrafficLightState::init_state`] was called on a store that already holds a state.
    DoubleInitialization,
}

/// Where the state is, and how many readers hold a handle to it.
#[derive(Debug)]
enum Slot {
    Vacant,
    Held { state: TrafficLightState, readers: u64 },
    Lent,
}

/// The owner of the one [`TrafficLightState`] of a program.
///
/// The store starts without a state. `init_state` puts the state in, once. From then
/// on the state is reached through handles: one exclusive handle, which takes the
/// state along and brings it back on release, or any number of shared handles,
/// which leave it in place. The store never has both kinds out at once.
#[derive(Debug)]
pub struct StateStore {
    slot: Slot,
}

/// A [`StateStore`] as plain values: where the state is, and how many handles are out.
#[verifier::ext_equal]
pub enum StoreModel {
    /// No state yet.
    Uninitialized,
    /// The store holds `state`, and `shared` shared handles are out.
    Held { state: TrafficLightStateView, shared: nat },
    /// The exclusive handle is out, and the state with it.
    Lent,
}

impl StoreModel {
    /// The store right after `init_state`: the unset state, no handle out.
    pub open spec fn seeded() -> StoreModel {
        StoreModel::Held { state: TrafficLightStateView::unset(), shared: 0 }
    }

    /// `init_state` has run.
    pub open spec fn initialized(self) -> bool {
        !(self is Uninitialized)
    }

    /// The number of exclusive handles that are out: none or one.
    pub open spec fn exclusive_handles(self) -> nat {
        if self is Lent {
            1
        } else {
            0
        }
    }

    /// The number of shared handles that are out.
    pub open spec fn shared_handles(self) -> nat {
        match self {
            StoreModel::Held { shared, .. } => shared,
            _ => 0,
        }
    }

    /// What a request for exclusive access meets: the state, if the store holds one
    /// and no handle is out, else the reason for the refusal.
    pub open spec fn exclusive_access(self) -> Result<TrafficLightStateView, AccessError> {
        match self {
            StoreModel::Uninitialized => Err(AccessError::UninitializedState),
            StoreModel::Lent => Err(AccessError::ConflictingAccess),
            StoreModel::Held { state, shared } => if shared == 0 {
                Ok(state)
            } else {
                Err(AccessError::ConflictingAccess)
            },
        }
    }

    /// What a shared handle meets that reads: the state, if the store holds one and
    /// has shared handles out, else the reason for the refusal.
    pub open spec fn shared_reading(self) -> Result<TrafficLightStateView, AccessError> {
        match self {
            StoreModel::Uninitialized => Err(AccessError::UninitializedState),
            StoreModel::Lent => Err(AccessError::ConflictingAccess),
            StoreModel::Held { state, shared } => if shared > 0 {
                Ok(state)
            } else {
                Err(AccessError::ConflictingAccess)
            },
        }
    }

    /// What a request for shared access meets: the state, if the store holds one,
    /// the exclusive handle is not out and the count of shared handles can still
    /// grow, else the reason for the refusal.
    pub open spec fn shared_access(self) -> Result<TrafficLightStateView, AccessError> {
        match self {
            StoreModel::Uninitialized => Err(AccessError::UninitializedState),
            StoreModel::Lent => Err(AccessError::ConflictingAccess),
            StoreModel::Held { state, shared } => if shared < u64::MAX {
                Ok(state)
            } else {
                Err(AccessError::ConflictingAccess)
            },
        }
    }
}

/// Nothing reaches the state before `init_state` has run: a store without a state
/// refuses every access with `UninitializedState`, and no other store gives that
/// reason.
pub proof fn lemma_access_needs_init(store: StoreModel)
    ensures
        store.exclusive_access() == Err::<TrafficLightStateView, AccessError>(
            AccessError::UninitializedState,
        ) <==> !store.initialized(),
        store.shared_access() == Err::<TrafficLightStateView, AccessError>(
            AccessError::UninitializedState,
        ) <==> !store.initialized(),
        store.shared_reading() == Err::<TrafficLightStateView, AccessError>(
            AccessError::UninitializedState,
        ) <==> !store.initialized(),
        StoreModel::seeded().initialized(),
        StoreModel::seeded().exclusive_access() == Ok::<TrafficLightStateView, AccessError>(
            TrafficLightStateView::unset(),
        ),
{
}

/// The exclusive handle stands alone: at most one is out, and none beside a shared
/// handle. While any handle is out the store refuses exclusive access, and while
/// the exclusive handle is out it refuses shared access too, each time with
/// `ConflictingAccess`.
pub proof fn lemma_exclusive_handle_stands_alone(store: StoreModel)
    ensures
        store.exclusive_handles() <= 1,
        store.exclusive_handles() == 1 ==> store.shared_handles() == 0,
        store.exclusive_access() is Ok <==> store.initialized() && store.exclusive_handles()
            + store.shared_handles() == 0,
        store.exclusive_handles() + store.shared_handles() > 0 ==> store.exclusive_access() == Err::<
            TrafficLightStateView,
            AccessError,
        >(AccessError::ConflictingAccess),
        store.exclusive_handles() == 1 ==> store.shared_access() == Err::<
            TrafficLightStateView,
            AccessError,
        >(AccessError::ConflictingAccess),
        store.exclusive_handles() == 1 ==> store.shared_reading() == Err::<
            TrafficLightStateView,
            AccessError,
        >(AccessError::ConflictingAccess),
{
}

impl View for StateStore {
    type V = StoreModel;

    closed spec fn view(&self) -> StoreModel {
        match self.slot {
            Slot::Vacant => StoreModel::Uninitialized,
            Slot::Held { state, readers } => StoreModel::Held { state: state@, shared: readers as nat },
            Slot::Lent => StoreModel::Lent,
        }
    }
}

impl StateStore {
    /// A store without a state.
    pub fn new() -> (store: StateStore)
        ensures
            store@ == StoreModel::Uninitialized,
    {
        StateStore { slot: Slot::Vacant }
    }
}

/// Exclusive access to the state of a store: the handle carries the state, so
/// nothing else can reach it until [`ExclusiveHandle::release`] brings it back.
#[derive(Debug)]
pub struct ExclusiveHandle {
    state: TrafficLightState,
}

impl View for ExclusiveHandle {
    type V = TrafficLightStateView;

    open spec fn view(&self) -> TrafficLightStateView {
        self.state()@
    }
}

impl ExclusiveHandle {
    /// The state as the handle holds it.
    pub closed spec fn state(&self) -> TrafficLightState {
        self.state
    }

    /// The state, to change.
    pub fn get_mut(&mut self) -> (state: &mut TrafficLightState)
        ensures
            *state == old(self).state(),
            final(self).state() == *final(state),
    {
        &mut self.state
    }

    /// Ends the exclusive access: the store that lent the state out takes it back as
    /// the handle holds it, with no handle out. A store that has not lent its state
    /// out takes nothing, stays as it is, and the handle comes back.
    pub fn release(self, store: &mut StateStore) -> (outcome: Result<(), ExclusiveHandle>)
        ensures
            old(store)@ is Lent ==> outcome is Ok && final(store)@ == (StoreModel::Held {
                state: self@,
                shared: 0,
            }),
            !(old(store)@ is Lent) ==> outcome is Err && outcome->Err_0 == self && *final(store)
                == *old(store),
    {
        match store.slot {
            Slot::Lent => {
                store.slot = Slot::Held { state: self.state, readers: 0 };
                Ok(())
            },
            _ => Err(self),
        }
    }
}

/// Shared access to the state of a store: a claim on the state that keeps exclusive
/// access away until [`SharedHandle::release`] gives it up.
#[derive(Debug)]
pub struct SharedHandle {
    seal: (),
}

impl SharedHandle {
    /// The state of `store`, to read.
    ///
    /// A handle reads only in the store that has shared handles out. Any other store
    /// refuses: with `UninitializedState` before `init_state`, else with
    /// `ConflictingAccess`.
    pub fn get<'a>(&self, store: &'a StateStore) -> (state: Result<
        &'a TrafficLightState,
        AccessError,
    >)
        ensures
            match store@.shared_reading() {
                Ok(held) => state is Ok && state->Ok_0@ == held,
                Err(reason) => state is Err && state->Err_0 == reason,
            },
    {
        match &store.slot {
            Slot::Vacant => Err(AccessError::UninitializedState),
            Slot::Lent => Err(AccessError::ConflictingAccess),
            Slot::Held { state, readers } => if *readers > 0 {
                Ok(state)
            } else {
                Err(AccessError::ConflictingAccess)
            },
        }
    }

    /// Ends the shared access: the store counts one shared handle less. A store with
    /// no shared handle out stays as it is, and the handle comes back.
    pub fn release(self, store: &mut StateStore) -> (outcome: Result<(), SharedHandle>)
        ensures
            old(store)@.shared_handles() > 0 ==> outcome is Ok && final(store)@ == (StoreModel::Held {
                state: old(store)@->state,
                shared: (old(store)@.shared_handles() - 1) as nat,
            }),
            old(store)@.shared_handles() == 0 ==> outcome is Err && outcome->Err_0 == self
                && *final(store) == *old(store),
    {
        match &mut store.slot {
            Slot::Held { state, readers } => if *readers > 0 {
                *readers = *readers - 1;
                Ok(())
            } else {
                Err(self)
            },
            _ => Err(self),
        }
    }
}

impl TrafficLightState {
    /// Puts the state into `store`: no light showing, no visitors, no handle out.
    /// This works once. A store that already has a state refuses with
    /// `DoubleInitialization` and stays as it is, handles and all.
    pub fn init_state(store: &mut StateStore) -> (done: Result<(), AccessError>)
        ensures
            old(store)@ is Uninitialized ==> done is Ok && final(store)@ == StoreModel::seeded(),
            old(store)@.initialized() ==> done is Err && done->Err_0
                == AccessError::DoubleInitialization && *final(store) == *old(store),
    {
        match store.slot {
            Slot::Vacant => {
                store.slot = Slot::Held { state: TrafficLightState::new(), readers: 0 };
                Ok(())
            },
            _ => Err(AccessError::DoubleInitialization),
        }
    }

    /// Asks `store` for exclusive access to the state.
    ///
    /// The store grants it when it holds the state and no handle, exclusive or
    /// shared, is out: the state leaves with the handle. Before `init_state` the
    /// answer is `UninitializedState`, with a handle out it is `ConflictingAccess`,
    /// and a store that refuses stays as it is.
    pub fn state_mut(store: &mut StateStore) -> (granted: Result<ExclusiveHandle, AccessError>)
        ensures
            match old(store)@.exclusive_access() {
                Ok(state) => granted is Ok && granted->Ok_0@ == state && final(store)@
                    is Lent,
                Err(reason) => granted is Err && granted->Err_0 == reason && *final(store)
                    == *old(store),
            },
    {
        let mut slot = Slot::Lent;
        core::mem::swap(&mut store.slot, &mut slot);
        match slot {
            Slot::Vacant => {
                store.slot = Slot::Vacant;
                Err(AccessError::UninitializedState)
            },
            Slot::Lent => Err(AccessError::ConflictingAccess),
            Slot::Held { state, readers } => {
                if readers == 0 {
                    Ok(ExclusiveHandle { state })
                } else {
                    store.slot = Slot::Held { state, readers };
                    Err(AccessError::ConflictingAccess)
                }
            },
        }
    }

    /// Asks `store` for shared access to the state.
    ///
    /// The store grants it when it holds the state and the exclusive handle is not
    /// out, and counts one shared handle more. Before `init_state` the answer is
    /// `UninitializedState`. While the exclusive handle is out, or when `u64::MAX`
    /// shared handles are out already, it is `ConflictingAccess`. A store that
    /// refuses stays as it is.
    pub fn state_ref(store: &mut StateStore) -> (granted: Result<SharedHandle, AccessError>)
        ensures
            match old(store)@.shared_access() {
                Ok(state) => granted is Ok && final(store)@ == (StoreModel::Held {
                    state,
                    shared: old(store)@.shared_handles() + 1,
                }),
                Err(reason) => granted is Err && granted->Err_0 == reason && *final(store)
                    == *old(store),
            },
    {
        match &mut store.slot {
            Slot::Vacant => Err(AccessError::UninitializedState),
            Slot::Lent => Err(AccessError::ConflictingAccess),
            Slot::Held { state, readers } => {
                if *readers < u64::MAX {
                    *readers = *readers + 1;
                    Ok(SharedHandle { seal: () })
                } else {
                    Err(AccessError::ConflictingAccess)
                }
            },
        }
    }
}

} // verus!
