use traffic_light::services::query_service::QueryService;
use traffic_light::services::traffic_light_service::{TrafficLightEvent, TrafficLightService};
use traffic_light::states::traffic_light_state::{StateStore, TrafficLightState};
use traffic_light::TrafficLightProgram;

const A: [u8; 32] = [3; 32];
const B: [u8; 32] = [4; 32];

#[test]
fn query_between_two_commands_shows_the_first_and_stays_as_taken() {
    let mut program = TrafficLightProgram::new();
    let mut commands = program.traffic_light_svc();
    let query = program.query_svc();
    assert_eq!(commands.green(&mut program.store, A), Ok(TrafficLightEvent::Green));
    let between = query.traffic_light(&mut program.store).unwrap();
    assert_eq!(commands.red(&mut program.store, B), Ok(TrafficLightEvent::Red));
    assert_eq!(between.current_light, "Green");
    assert_eq!(between.all_users, vec![(A, "Green".to_string())]);
    let mut after = query.traffic_light(&mut program.store).unwrap();
    after.all_users.sort();
    assert_eq!(after.current_light, "Red");
    assert_eq!(after.all_users, vec![(A, "Green".to_string()), (B, "Red".to_string())]);
}

#[test]
fn query_changes_nothing() {
    let mut program = TrafficLightProgram::new();
    let query = program.query_svc();
    assert!(program.traffic_light_svc().yellow(&mut program.store, A).is_ok());
    let first = query.traffic_light(&mut program.store).unwrap();
    let second = query.traffic_light(&mut program.store).unwrap();
    let third = query.traffic_light(&mut program.store).unwrap();
    assert_eq!(first, second);
    assert_eq!(second, third);
    assert_eq!(first.current_light, "Yellow");
    assert_eq!(first.all_users, vec![(A, "Yellow".to_string())]);
}

#[test]
fn query_gives_its_shared_access_up() {
    let mut program = TrafficLightProgram::new();
    assert!(program.query_svc().traffic_light(&mut program.store).is_ok());
    let exclusive = TrafficLightState::state_mut(&mut program.store);
    assert!(exclusive.is_ok());
}

#[test]
fn changing_a_snapshot_does_not_reach_the_state() {
    let mut program = TrafficLightProgram::new();
    assert!(program.traffic_light_svc().green(&mut program.store, A).is_ok());
    let mut snapshot = program.query_svc().traffic_light(&mut program.store).unwrap();
    snapshot.current_light.push_str("ish");
    snapshot.all_users.clear();
    let again = program.query_svc().traffic_light(&mut program.store).unwrap();
    assert_eq!(again.current_light, "Green");
    assert_eq!(again.all_users, vec![(A, "Green".to_string())]);
}

#[test]
fn services_work_on_the_store_they_are_lent() {
    let mut one = StateStore::new();
    let mut other = StateStore::new();
    assert_eq!(TrafficLightService::seed(&mut one), Ok(()));
    assert_eq!(TrafficLightService::seed(&mut other), Ok(()));
    let mut commands = TrafficLightService::default();
    let query = QueryService::default();
    assert!(commands.green(&mut one, A).is_ok());
    assert!(commands.red(&mut other, B).is_ok());
    assert_eq!(query.traffic_light(&mut one).unwrap().all_users, vec![(A, "Green".to_string())]);
    assert_eq!(query.traffic_light(&mut other).unwrap().all_users, vec![(B, "Red".to_string())]);
}
