pub mod accounts;
pub mod error;
pub mod pda;
pub mod plan;
pub mod process;
pub mod rent;
