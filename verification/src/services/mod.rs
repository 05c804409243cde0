pub mod ai;
pub mod blockchain;
