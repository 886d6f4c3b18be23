pub mod executor;
pub mod fail2ban;
