//! The HoYoLab API rules: retcodes, errors, request signing and the daily
//! reward endpoints.

pub mod client;
pub mod daily_reward;
pub mod ds;
pub mod error;
pub mod retcode;
