pub mod initialize;
pub mod contribute;
pub mod check;
pub mod refund;
