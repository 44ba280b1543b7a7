//! Fetches crypto-asset prices, formats them as USD lines and decides, step
//! by step, what a single publishing run does next.
pub mod destination;
pub mod message;
pub mod run;
