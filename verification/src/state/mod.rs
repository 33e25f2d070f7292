pub mod bonding_curve;
pub mod curve_laws;
pub mod global_config;
