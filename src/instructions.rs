//! The four instructions of a sale, each over the accounts it touches.
pub mod buy_tokens;
pub mod close_crowdsale;
pub mod create_crowdsale;
pub mod withdraw_funds;
