//! E-commerce partner endpoints: onboarding, combined trade, balance,
//! withdrawal, profit sharing and refunds.

pub mod applyment;
pub mod combine_trade;
pub mod fund_balance;
pub mod fund_withdraw;
pub mod profit_sharing;
pub mod refund;
