use vstd::prelude::*;
use crate::error::ErrorCode;
use crate::pubkey::Pubkey;
use crate::state::GameStats;

verus! {

/// What a call of `initialize` is made with.
#[derive(Clone, Copy, Debug, PartialEq, Eq)]
pub struct Initialize {
    /// What stands at the ledger's address: `None` while nothing was created
    /// there, the ledger once it was.
    pub game_stats: Option<GameStats>,
    /// The signer who makes the call, and who becomes the ledger's authority.
    pub authority: Pubkey,
}

/// What a call of one of the three updates is made with.
#[derive(Clone, Copy, Debug, PartialEq, Eq)]
pub struct UpdateStats {
    /// The ledger.
    pub game_stats: GameStats,
    /// The signer who makes the call.
    pub authority: Pubkey,
}

impl UpdateStats {
    /// The caller is the authority that the ledger records.
    pub open spec fn authorized(self) -> bool {
        self.authority == self.game_stats.authority
    }

    /// Tells whether the caller is the authority that the ledger records.
    pub fn is_authorized(&self) -> (yes: bool)
        ensures
            yes == self.authorized(),
    {
        self.authority == self.game_stats.authority
    }
}

/// What `initialize` returns: a ledger that is there already is not created
/// again.
pub open spec fn initialize_result(ctx: Initialize) -> Result<(), ErrorCode> {
    if ctx.game_stats is Some {
        Err(ErrorCode::AllocationError)
    } else {
        Ok(())
    }
}

/// What `initialize` leaves behind: a fresh ledger under the caller's
/// authority where none was, and else what it found.
pub open spec fn initialize_state(ctx: Initialize) -> Initialize {
    if ctx.game_stats is Some {
        ctx
    } else {
        Initialize { game_stats: Some(GameStats::fresh(ctx.authority)), authority: ctx.authority }
    }
}

/// What `increment_blocks_mined` returns. The caller is looked at first, the
/// sum second.
pub open spec fn increment_blocks_mined_result(ctx: UpdateStats, amount: u64) -> Result<
    (),
    ErrorCode,
> {
    if !ctx.authorized() {
        Err(ErrorCode::Unauthorized)
    } else if ctx.game_stats.total_blocks_mined + amount > u64::MAX {
        Err(ErrorCode::ArithmeticOverflow)
    } else {
        Ok(())
    }
}

/// What `increment_blocks_mined` leaves behind: `amount` more blocks mined
/// where the call succeeds, and else what it found.
pub open spec fn increment_blocks_mined_state(ctx: UpdateStats, amount: u64) -> UpdateStats {
    if increment_blocks_mined_result(ctx, amount) is Ok {
        UpdateStats {
            game_stats: GameStats {
                total_blocks_mined: (ctx.game_stats.total_blocks_mined + amount) as u64,
                ..ctx.game_stats
            },
            authority: ctx.authority,
        }
    } else {
        ctx
    }
}

/// What `update_player_count` returns.
pub open spec fn update_player_count_result(ctx: UpdateStats, new_count: u64) -> Result<
    (),
    ErrorCode,
> {
    if !ctx.authorized() {
        Err(ErrorCode::Unauthorized)
    } else {
        Ok(())
    }
}

/// What `update_player_count` leaves behind: `new_count` active players where
/// the call succeeds, and else what it found.
pub open spec fn update_player_count_state(ctx: UpdateStats, new_count: u64) -> UpdateStats {
    if update_player_count_result(ctx, new_count) is Ok {
        UpdateStats {
            game_stats: GameStats { active_players: new_count, ..ctx.game_stats },
            authority: ctx.authority,
        }
    } else {
        ctx
    }
}

/// What `record_expansion` returns. The caller is looked at first, the
/// counter second.
pub open spec fn record_expansion_result(ctx: UpdateStats) -> Result<(), ErrorCode> {
    if !ctx.authorized() {
        Err(ErrorCode::Unauthorized)
    } else if ctx.game_stats.grid_expansions == u64::MAX {
        Err(ErrorCode::ArithmeticOverflow)
    } else {
        Ok(())
    }
}

/// What `record_expansion` leaves behind: one more expansion where the call
/// succeeds, and else what it found.
pub open spec fn record_expansion_state(ctx: UpdateStats) -> UpdateStats {
    if record_expansion_result(ctx) is Ok {
        UpdateStats {
            game_stats: GameStats {
                grid_expansions: (ctx.game_stats.grid_expansions + 1) as u64,
                ..ctx.game_stats
            },
            authority: ctx.authority,
        }
    } else {
        ctx
    }
}

/// Creates the ledger: all four counters at zero, the caller as authority.
///
/// Where a ledger stands at the address already, the call fails with
/// `AllocationError` and that ledger stays as it is.
pub fn initialize(ctx: &mut Initialize) -> (res: Result<(), ErrorCode>)
    ensures
        res == initialize_result(*old(ctx)),
        *final(ctx) == initialize_state(*old(ctx)),
        old(ctx).game_stats is None ==> res is Ok && final(ctx).game_stats == Some(
            GameStats::fresh(old(ctx).authority),
        ),
        old(ctx).game_stats is Some ==> res == Err::<(), ErrorCode>(ErrorCode::AllocationError)
            && *final(ctx) == *old(ctx),
{
    if ctx.game_stats.is_some() {
        return Err(ErrorCode::AllocationError);
    }
    ctx.game_stats = Some(
        GameStats {
            total_blocks_mined: 0,
            active_players: 0,
            grid_expansions: 0,
            longest_streak: 0,
            authority: ctx.authority,
        },
    );
    Ok(())
}

/// Adds `amount` to the blocks mined.
///
/// A caller who is not the authority gets `Unauthorized`. A sum beyond
/// `u64::MAX` gets `ArithmeticOverflow`. Either way the ledger stays as it is.
pub fn increment_blocks_mined(ctx: &mut UpdateStats, amount: u64) -> (res: Result<(), ErrorCode>)
    ensures
        res == increment_blocks_mined_result(*old(ctx), amount),
        *final(ctx) == increment_blocks_mined_state(*old(ctx), amount),
        res is Ok ==> final(ctx).game_stats.total_blocks_mined
            == old(ctx).game_stats.total_blocks_mined + amount,
        res is Err ==> *final(ctx) == *old(ctx),
        old(ctx).game_stats.may_become(final(ctx).game_stats),
{
    if !ctx.is_authorized() {
        return Err(ErrorCode::Unauthorized);
    }
    match ctx.game_stats.total_blocks_mined.checked_add(amount) {
        Some(total) => {
            ctx.game_stats.total_blocks_mined = total;
            Ok(())
        },
        None => Err(ErrorCode::ArithmeticOverflow),
    }
}

/// Sets the active players to `new_count`, whatever the count was.
///
/// A caller who is not the authority gets `Unauthorized`, and the ledger
/// stays as it is.
pub fn update_player_count(ctx: &mut UpdateStats, new_count: u64) -> (res: Result<(), ErrorCode>)
    ensures
        res == update_player_count_result(*old(ctx), new_count),
        *final(ctx) == update_player_count_state(*old(ctx), new_count),
        res is Ok ==> final(ctx).game_stats.active_players == new_count,
        res is Err ==> *final(ctx) == *old(ctx),
        old(ctx).game_stats.may_become(final(ctx).game_stats),
{
    if !ctx.is_authorized() {
        return Err(ErrorCode::Unauthorized);
    }
    ctx.game_stats.active_players = new_count;
    Ok(())
}

/// Counts one more expansion of the grid.
///
/// A caller who is not the authority gets `Unauthorized`. A counter that
/// stands at `u64::MAX` gets `ArithmeticOverflow`. Either way the ledger stays
/// as it is.
pub fn record_expansion(ctx: &mut UpdateStats) -> (res: Result<(), ErrorCode>)
    ensures
        res == record_expansion_result(*old(ctx)),
        *final(ctx) == record_expansion_state(*old(ctx)),
        res is Ok ==> final(ctx).game_stats.grid_expansions == old(ctx).game_stats.grid_expansions
            + 1,
        res is Err ==> *final(ctx) == *old(ctx),
        old(ctx).game_stats.may_become(final(ctx).game_stats),
{
    if !ctx.is_authorized() {
        return Err(ErrorCode::Unauthorized);
    }
    match ctx.game_stats.grid_expansions.checked_add(1) {
        Some(total) => {
            ctx.game_stats.grid_expansions = total;
            Ok(())
        },
        None => Err(ErrorCode::ArithmeticOverflow),
    }
}

} // verus!
