//! A traffic light that remembers who switched it.
//!
//! One [`StateStore`](states::traffic_light_state::StateStore) owns the state. The
//! commands of [`TrafficLightService`] take exclusive access to it, switch the light
//! and record the caller. The query of [`QueryService`] takes shared access and
//! returns a snapshot. The store grants an access only where it cannot collide with
//! a handle that is still out.
use crate::services::query_service::QueryService;
use crate::services::traffic_light_service::TrafficLightService;
use crate::states::traffic_light_state::{StateStore, StoreModel};
use vstd::prelude::*;

pub mod history;
pub mod services;
pub mod states;

verus! {

/// The program: it owns the store and hands out the two services, which work on
/// the store that the program lends them.
pub struct TrafficLightProgram {
    pub store: StateStore,
}

impl TrafficLightProgram {
    /// A program whose store holds its first state: no light, no visitors, no
    /// handle out.
    pub fn new() -> (program: TrafficLightProgram)
        ensures
            program.store@ == StoreModel::seeded(),
    {
        let mut store = StateStore::new();
        let seeded = TrafficLightService::seed(&mut store);
        assert(seeded is Ok);
        TrafficLightProgram { store }
    }

    /// The service that takes the commands.
    pub fn traffic_light_svc(&self) -> TrafficLightService {
        TrafficLightService::new()
    }

    /// The service that takes the query.
    pub fn query_svc(&self) -> QueryService {
        QueryService::new()
    }
}

} // verus!
