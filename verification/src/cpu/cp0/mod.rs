pub mod reg_config;
pub mod reg_status;
pub mod cp0;
