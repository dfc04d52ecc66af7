//! Storekeeper: stamina tracking, daily-reward scheduling and notification
//! decisions for gacha games, with the rules stated and proved in Verus.

pub mod game_id;
pub mod error;
pub mod text;
pub mod region;
pub mod resource_types;
pub mod notification;
pub mod clock;
pub mod resource;
pub mod daily_reward;
pub mod claim_time;
pub mod scheduled_claim;
pub mod client;
pub mod hoyolab;
pub mod random;
pub mod kuro;
pub mod config;
pub mod config_diff;
pub mod events;
pub mod command_error;
pub mod i18n;
pub mod logging;
pub mod message_builder;
pub mod game_map;
pub mod provider_batch;
pub mod clients;
pub mod api_time;
