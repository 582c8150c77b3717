//! The commands of the traffic light: each switches the light and puts the caller
//! on record.
use crate::states::traffic_light_state::{AccessError, StateStore, StoreModel, TrafficLightState};
use crate::states::visitor_log::CallerId;
use vstd::prelude::*;

verus! {

/// What a command reports back: the light it has switched to.
#[derive(Clone, Copy, Debug, PartialEq, Eq, Structural)]
pub enum TrafficLightEvent {
    Green,
    Yellow,
    Red,
}

impl TrafficLightEvent {
    /// The light as the state records it.
    pub open spec fn light(self) -> Seq<char> {
        match self {
            TrafficLightEvent::Green => "Green"@,
            TrafficLightEvent::Yellow => "Yellow"@,
            TrafficLightEvent::Red => "Red"@,
        }
    }

    /// The light as the state records it.
    pub fn to_light(self) -> (light: String)
        ensures
            light@ == self.light(),
    {
        match self {
            TrafficLightEvent::Green => "Green".to_string(),
            TrafficLightEvent::Yellow => "Yellow".to_string(),
            TrafficLightEvent::Red => "Red".to_string(),
        }
    }
}

/// The command side of the traffic light.
#[derive(Default)]
pub struct TrafficLightService;

impl TrafficLightService {
    /// Puts the first state into `store`, as [`TrafficLightState::init_state`] does.
    pub fn seed(store: &mut StateStore) -> (done: Result<(), AccessError>)
        ensures
            old(store)@ is Uninitialized ==> done is Ok && final(store)@ == StoreModel::seeded(),
            old(store)@.initialized() ==> done is Err && done->Err_0
                == AccessError::DoubleInitialization && *final(store) == *old(store),
    {
        TrafficLightState::init_state(store)
    }

    /// The service for one call. It holds nothing: the store is lent to each command.
    pub fn new() -> Self {
        TrafficLightService
    }

    /// Switches the light to `event` on behalf of `caller`, whatever showed before.
    fn switch(store: &mut StateStore, caller: CallerId, event: TrafficLightEvent) -> (reply: Result<
        TrafficLightEvent,
        AccessError,
    >)
        ensures
            reply == old(store)@.switch_reply(event),
            final(store)@ == old(store)@.after_switch(caller, event),
            reply is Err ==> *final(store) == *old(store),
    {
        let mut handle = match TrafficLightState::state_mut(store) {
            Ok(handle) => handle,
            Err(reason) => {
                return Err(reason);
            },
        };
        let current_light = event.to_light();
        let state = handle.get_mut();
        state.current_light = current_light.clone();
        state.all_users.insert(caller, current_light);
        let released = handle.release(store);
        assert(released is Ok);
        Ok(event)
    }

    /// Switches the light to green and records `caller` with it.
    ///
    /// The command takes exclusive access to the state for its own duration. Where
    /// the store refuses that, the command reports the store's reason and changes
    /// nothing.
    pub fn green(&mut self, store: &mut StateStore, caller: CallerId) -> (reply: Result<
        TrafficLightEvent,
        AccessError,
    >)
        ensures
            reply == old(store)@.switch_reply(TrafficLightEvent::Green),
            final(store)@ == old(store)@.after_switch(caller, TrafficLightEvent::Green),
            reply is Err ==> *final(store) == *old(store),
    {
        Self::switch(store, caller, TrafficLightEvent::Green)
    }

    /// Switches the light to yellow and records `caller` with it.
    ///
    /// The command takes exclusive access to the state for its own duration. Where
    /// the store refuses that, the command reports the store's reason and changes
    /// nothing.
    pub fn yellow(&mut self, store: &mut StateStore, caller: CallerId) -> (reply: Result<
        TrafficLightEvent,
        AccessError,
    >)
        ensures
            reply == old(store)@.switch_reply(TrafficLightEvent::Yellow),
            final(store)@ == old(store)@.after_switch(caller, TrafficLightEvent::Yellow),
            reply is Err ==> *final(store) == *old(store),
    {
        Self::switch(store, caller, TrafficLightEvent::Yellow)
    }

    /// Switches the light to red and records `caller` with it.
    ///
    /// The command takes exclusive access to the state for its own duration. Where
    /// the store refuses that, the command reports the store's reason and changes
    /// nothing.
    pub fn red(&mut self, store: &mut StateStore, caller: CallerId) -> (reply: Result<
        TrafficLightEvent,
        AccessError,
    >)
        ensures
            reply == old(store)@.switch_reply(TrafficLightEvent::Red),
            final(store)@ == old(store)@.after_switch(caller, TrafficLightEvent::Red),
            reply is Err ==> *final(store) == *old(store),
    {
        Self::switch(store, caller, TrafficLightEvent::Red)
    }
}

impl StoreModel {
    /// What a command that switches to `event` reports when it meets this store:
    /// `event`, if the store grants exclusive access, else the store's reason.
    pub open spec fn switch_reply(self, event: TrafficLightEvent) -> Result<
        TrafficLightEvent,
        AccessError,
    > {
        match self.exclusive_access() {
            Ok(_) => Ok(event),
            Err(reason) => Err(reason),
        }
    }

    /// The store after `caller` has issued the command that switches to `event`:
    /// where the store grants exclusive access, it holds the switched state, with
    /// no handle out; else it is as before.
    pub open spec fn after_switch(self, caller: CallerId, event: TrafficLightEvent) -> StoreModel {
        match self.exclusive_access() {
            Ok(state) => StoreModel::Held { state: state.switched(caller, event.light()), shared: 0 },
            Err(_) => self,
        }
    }
}

} // verus!
