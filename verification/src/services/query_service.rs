//! The query of the traffic light: a snapshot of the state, which it leaves as it is.
use crate::states::traffic_light_state::{
    AccessError, IoTrafficLightState, StateStore, TrafficLightState,
};
use vstd::prelude::*;

verus! {

/// The query side of the traffic light.
#[derive(Default)]
pub struct QueryService;

impl QueryService {
    /// The service for one call. It holds nothing: the store is lent to the query.
    pub fn new() -> Self {
        QueryService
    }

    /// Takes a snapshot of the state in `store`.
    ///
    /// The query takes shared access to the state for its own duration, copies the
    /// light and lists the visitors, one entry for each, and gives the access up
    /// again: the store holds afterwards what it held before, with as many handles
    /// out. Where the store refuses shared access, the query reports the store's
    /// reason and yields no snapshot.
    pub fn traffic_light(&self, store: &mut StateStore) -> (reply: Result<
        IoTrafficLightState,
        AccessError,
    >)
        ensures
            match old(store)@.shared_access() {
                Ok(state) => reply is Ok && reply->Ok_0@.reflects(state)
                    && reply->Ok_0.all_users@.len() == state.all_users.dom().len(),
                Err(reason) => reply is Err && reply->Err_0 == reason,
            },
            final(store)@ == old(store)@,
    {
        let handle = match TrafficLightState::state_ref(store) {
            Ok(handle) => handle,
            Err(reason) => {
                return Err(reason);
            },
        };
        let reply = match handle.get(store) {
            Ok(state) => Ok(state.clone().into()),
            Err(reason) => Err(reason),
        };
        let released = handle.release(store);
        assert(released is Ok);
        reply
    }
}

} // verus!
