pub mod address;
pub mod config;
pub mod records;
pub mod scan;
pub mod payout;
pub mod provision;
pub mod walk;
