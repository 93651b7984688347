pub mod error;
pub mod instructions;
pub mod laws;
pub mod pubkey;
pub mod state;

pub use error::ErrorCode;
pub use instructions::{
    increment_blocks_mined, initialize, record_expansion, update_player_count, Initialize,
    UpdateStats,
};
pub use pubkey::Pubkey;
pub use state::GameStats;
