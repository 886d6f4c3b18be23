pub mod ip_state;
pub mod state_store;
