pub mod config;
pub mod forwarder;
pub mod guild_state;
pub mod identify;
pub mod intents;
pub mod interaction;
pub mod shard;
pub mod shard_info;
pub mod supervisor;
pub mod worker;
