//! Partner-mode endpoint data types.

pub mod applyment;
pub mod shou_fu_tong;
