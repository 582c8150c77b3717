pub mod query_service;
pub mod traffic_light_service;
