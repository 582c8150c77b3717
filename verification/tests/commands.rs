use traffic_light::services::query_service::QueryService;
use traffic_light::services::traffic_light_service::{TrafficLightEvent, TrafficLightService};
use traffic_light::states::traffic_light_state::{IoTrafficLightState, StateStore};
use traffic_light::TrafficLightProgram;

const A: [u8; 32] = [7; 32];
const B: [u8; 32] = [8; 32];
const C: [u8; 32] = [9; 32];

fn issue(store: &mut StateStore, event: TrafficLightEvent, caller: [u8; 32]) -> TrafficLightEvent {
    let mut commands = TrafficLightService::new();
    match event {
        TrafficLightEvent::Green => commands.green(store, caller).unwrap(),
        TrafficLightEvent::Yellow => commands.yellow(store, caller).unwrap(),
        TrafficLightEvent::Red => commands.red(store, caller).unwrap(),
    }
}

fn snapshot_of(store: &mut StateStore) -> IoTrafficLightState {
    let mut snapshot = QueryService::new().traffic_light(store).unwrap();
    snapshot.all_users.sort();
    snapshot
}

#[test]
fn each_command_reports_its_own_light() {
    let mut program = TrafficLightProgram::new();
    let mut commands = program.traffic_light_svc();
    assert_eq!(commands.green(&mut program.store, A), Ok(TrafficLightEvent::Green));
    assert_eq!(commands.yellow(&mut program.store, A), Ok(TrafficLightEvent::Yellow));
    assert_eq!(commands.red(&mut program.store, A), Ok(TrafficLightEvent::Red));
}

#[test]
fn lights_are_recorded_by_name() {
    assert_eq!(TrafficLightEvent::Green.to_light(), "Green");
    assert_eq!(TrafficLightEvent::Yellow.to_light(), "Yellow");
    assert_eq!(TrafficLightEvent::Red.to_light(), "Red");
}

#[test]
fn any_light_follows_any_light() {
    let lights = [
        (TrafficLightEvent::Green, "Green"),
        (TrafficLightEvent::Yellow, "Yellow"),
        (TrafficLightEvent::Red, "Red"),
    ];
    for (first, first_name) in lights {
        for (second, second_name) in lights {
            let mut program = TrafficLightProgram::new();
            assert_eq!(issue(&mut program.store, first, A), first);
            assert_eq!(snapshot_of(&mut program.store).current_light, first_name);
            assert_eq!(issue(&mut program.store, second, B), second);
            assert_eq!(snapshot_of(&mut program.store).current_light, second_name);
        }
    }
}

#[test]
fn first_command_follows_the_unset_light() {
    let mut program = TrafficLightProgram::new();
    assert_eq!(snapshot_of(&mut program.store).current_light, "");
    issue(&mut program.store, TrafficLightEvent::Red, A);
    assert_eq!(snapshot_of(&mut program.store).current_light, "Red");
}

#[test]
fn same_light_twice_is_harmless() {
    let mut program = TrafficLightProgram::new();
    issue(&mut program.store, TrafficLightEvent::Green, A);
    let once = snapshot_of(&mut program.store);
    issue(&mut program.store, TrafficLightEvent::Green, A);
    assert_eq!(snapshot_of(&mut program.store), once);
}

#[test]
fn green_then_yellow_by_one_caller_leaves_one_yellow_entry() {
    let mut program = TrafficLightProgram::new();
    issue(&mut program.store, TrafficLightEvent::Green, A);
    issue(&mut program.store, TrafficLightEvent::Yellow, A);
    let snapshot = snapshot_of(&mut program.store);
    let of_a: Vec<_> = snapshot.all_users.iter().filter(|entry| entry.0 == A).collect();
    assert_eq!(of_a, vec![&(A, "Yellow".to_string())]);
    assert_eq!(snapshot.all_users.len(), 1);
}

#[test]
fn each_caller_keeps_the_light_of_its_own_last_command() {
    let mut program = TrafficLightProgram::new();
    issue(&mut program.store, TrafficLightEvent::Green, A);
    issue(&mut program.store, TrafficLightEvent::Green, B);
    issue(&mut program.store, TrafficLightEvent::Red, C);
    issue(&mut program.store, TrafficLightEvent::Yellow, B);
    issue(&mut program.store, TrafficLightEvent::Red, A);
    issue(&mut program.store, TrafficLightEvent::Green, C);
    let snapshot = snapshot_of(&mut program.store);
    assert_eq!(snapshot.current_light, "Green");
    assert_eq!(
        snapshot.all_users,
        vec![
            (A, "Red".to_string()),
            (B, "Yellow".to_string()),
            (C, "Green".to_string()),
        ]
    );
}

#[test]
fn callers_that_differ_in_one_byte_are_two_visitors() {
    let mut near = A;
    near[31] = 0;
    let mut program = TrafficLightProgram::new();
    issue(&mut program.store, TrafficLightEvent::Green, A);
    issue(&mut program.store, TrafficLightEvent::Red, near);
    let snapshot = snapshot_of(&mut program.store);
    assert_eq!(
        snapshot.all_users,
        vec![(near, "Red".to_string()), (A, "Green".to_string())]
    );
}

#[test]
fn many_callers_are_each_listed_once() {
    let mut program = TrafficLightProgram::new();
    let mut expected = Vec::new();
    for n in 0..200u8 {
        let caller = [n; 32];
        issue(&mut program.store, TrafficLightEvent::Yellow, caller);
        issue(&mut program.store, TrafficLightEvent::Red, caller);
        expected.push((caller, "Red".to_string()));
    }
    let snapshot = snapshot_of(&mut program.store);
    assert_eq!(snapshot.current_light, "Red");
    assert_eq!(snapshot.all_users, expected);
}
