//! Roster tracking for recurring group events announced in a chat community:
//! alert identities, rosters of role buckets, their rendering, and statistics
//! over registered player profiles.

pub mod text;
pub mod weapon;
pub mod trade_skill;
pub mod war_message;
pub mod bucket;
pub mod user_data;
pub mod alert_connector;
pub mod render;
pub mod identity;
pub mod store;
pub mod stats;
pub mod alert;
pub mod command;
