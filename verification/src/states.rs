pub mod traffic_light_state;
pub mod visitor_log;
