use vstd::prelude::*;
use crate::pubkey::Pubkey;

verus! {

/// The statistics ledger of the game: four counters and the key of the one
/// signer who may change them.
#[derive(Clone, Copy, Debug, PartialEq, Eq)]
pub struct GameStats {
    /// Blocks mined so far. It only grows.
    pub total_blocks_mined: u64,
    /// Players active at the moment. It is overwritten at will.
    pub active_players: u64,
    /// Expansions of the grid so far. It grows by one at a time.
    pub grid_expansions: u64,
    /// The longest streak. It starts at zero, and no operation changes it.
    pub longest_streak: u64,
    /// The signer who created the ledger. It never changes.
    pub authority: Pubkey,
}

/// Bytes of the tag that precedes the fields in the stored record.
pub const DISCRIMINATOR_LEN: usize = 8;

/// The namespace tag from which the address of the ledger is derived: the
/// ASCII bytes of `game_stats`. There is one such address, and so one ledger.
pub const GAME_STATS_SEED: [u8; 10] = [103, 97, 109, 101, 95, 115, 116, 97, 116, 115];

impl GameStats {
    /// Bytes that the fields take in the stored record: the four counters,
    /// eight bytes each, and then the authority's key.
    pub const INIT_SPACE: usize = 8 + 8 + 8 + 8 + 32;

    /// Bytes of the whole stored record: the tag and then the fields.
    pub const SPACE: usize = DISCRIMINATOR_LEN + GameStats::INIT_SPACE;

    /// The ledger as it stands right after its creation by `authority`.
    pub open spec fn fresh(authority: Pubkey) -> GameStats {
        GameStats {
            total_blocks_mined: 0,
            active_players: 0,
            grid_expansions: 0,
            longest_streak: 0,
            authority,
        }
    }

    /// `next` can be this ledger one update later: the authority and the
    /// longest streak are the same, the blocks mined are no fewer, and the
    /// expansions are the same or one more.
    pub open spec fn may_become(self, next: GameStats) -> bool {
        &&& next.authority == self.authority
        &&& next.longest_streak == self.longest_streak
        &&& next.total_blocks_mined >= self.total_blocks_mined
        &&& (next.grid_expansions == self.grid_expansions || next.grid_expansions
            == self.grid_expansions + 1)
    }
}

} // verus!
