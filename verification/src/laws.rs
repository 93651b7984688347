use vstd::prelude::*;
use vstd::seq_lib::*;
use crate::error::ErrorCode;
use crate::instructions::{
    increment_blocks_mined_result, increment_blocks_mined_state, initialize_result,
    initialize_state, record_expansion_result, record_expansion_state,
    update_player_count_result, update_player_count_state, Initialize, UpdateStats,
};
use crate::pubkey::Pubkey;
use crate::state::GameStats;

verus! {

/// The sum of the amounts.
pub open spec fn total_of(amounts: Seq<u64>) -> nat
    decreases amounts.len(),
{
    if amounts.len() == 0 {
        0
    } else {
        total_of(amounts.drop_last()) + amounts.last() as nat
    }
}

/// Starting from `start`, no sum of the first few amounts leaves the range of
/// an unsigned 64-bit integer.
pub open spec fn no_partial_sum_overflows(start: u64, amounts: Seq<u64>) -> bool {
    forall|k: int| 0 <= k <= amounts.len() ==> start + #[trigger] total_of(amounts.take(k)) <= u64::MAX
}

/// What stands after one call of `increment_blocks_mined` for each of the
/// amounts, in their order, all by the caller of `ctx`.
pub open spec fn after_increments(ctx: UpdateStats, amounts: Seq<u64>) -> UpdateStats
    decreases amounts.len(),
{
    if amounts.len() == 0 {
        ctx
    } else {
        increment_blocks_mined_state(after_increments(ctx, amounts.drop_last()), amounts.last())
    }
}

/// A sum is at least the sum of any of its beginnings.
pub proof fn lemma_total_of_grows(amounts: Seq<u64>, k: int)
    requires
        0 <= k <= amounts.len(),
    ensures
        total_of(amounts.take(k)) <= total_of(amounts),
    decreases amounts.len(),
{
    if k == amounts.len() {
        assert(amounts.take(k) =~= amounts);
    } else {
        lemma_total_of_grows(amounts.drop_last(), k);
        assert(amounts.drop_last().take(k) =~= amounts.take(k));
    }
}

/// No partial sum overflows exactly when the whole sum does not.
pub proof fn lemma_partial_sums_fit(start: u64, amounts: Seq<u64>)
    ensures
        no_partial_sum_overflows(start, amounts) <==> start + total_of(amounts) <= u64::MAX,
{
    assert(amounts.take(amounts.len() as int) =~= amounts);
    if start + total_of(amounts) <= u64::MAX {
        assert forall|k: int| 0 <= k <= amounts.len() implies start + #[trigger] total_of(
            amounts.take(k),
        ) <= u64::MAX by {
            lemma_total_of_grows(amounts, k);
        }
    }
}

/// Taking one amount out of a sequence takes that amount off its sum.
proof fn lemma_total_of_remove(amounts: Seq<u64>, i: int)
    requires
        0 <= i < amounts.len(),
    ensures
        total_of(amounts) == total_of(amounts.remove(i)) + amounts[i],
    decreases amounts.len(),
{
    if i == amounts.len() - 1 {
        assert(amounts.remove(i) =~= amounts.drop_last());
    } else {
        lemma_total_of_remove(amounts.drop_last(), i);
        assert(amounts.remove(i).drop_last() =~= amounts.drop_last().remove(i));
    }
}

/// The sum of the amounts does not depend on their order.
pub proof fn lemma_total_of_any_order(a: Seq<u64>, b: Seq<u64>)
    requires
        a.to_multiset() == b.to_multiset(),
    ensures
        total_of(a) == total_of(b),
    decreases a.len(),
{
    a.to_multiset_ensures();
    b.to_multiset_ensures();
    if a.len() > 0 {
        let x = a.last();
        assert(a[a.len() - 1] == x);
        assert(a.to_multiset().count(x) > 0);
        assert(b.to_multiset().count(x) > 0);
        assert(b.contains(x));
        let i = b.index_of(x);
        assert(a.remove(a.len() - 1) =~= a.drop_last());
        assert(a.drop_last().to_multiset() == b.remove(i).to_multiset());
        lemma_total_of_any_order(a.drop_last(), b.remove(i));
        lemma_total_of_remove(b, i);
    }
}

/// Increments add up: where the caller is the authority and no partial sum
/// overflows, every call in the sequence succeeds, the blocks mined end at
/// what they were plus the sum of the amounts, and nothing else has changed.
/// On a fresh ledger they end at the sum itself.
pub proof fn lemma_increments_add_up(ctx: UpdateStats, amounts: Seq<u64>)
    requires
        ctx.authorized(),
        no_partial_sum_overflows(ctx.game_stats.total_blocks_mined, amounts),
    ensures
        after_increments(ctx, amounts) == (UpdateStats {
            game_stats: GameStats {
                total_blocks_mined: (ctx.game_stats.total_blocks_mined + total_of(amounts)) as u64,
                ..ctx.game_stats
            },
            authority: ctx.authority,
        }),
        after_increments(ctx, amounts).game_stats.total_blocks_mined
            == ctx.game_stats.total_blocks_mined + total_of(amounts),
        ctx.game_stats.total_blocks_mined == 0 ==> after_increments(
            ctx,
            amounts,
        ).game_stats.total_blocks_mined == total_of(amounts),
        forall|k: int|
            0 <= k < amounts.len() ==> #[trigger] increment_blocks_mined_result(
                after_increments(ctx, amounts.take(k)),
                amounts[k],
            ) is Ok,
    decreases amounts.len(),
{
    lemma_partial_sums_fit(ctx.game_stats.total_blocks_mined, amounts);
    if amounts.len() > 0 {
        let front = amounts.drop_last();
        lemma_total_of_grows(amounts, amounts.len() - 1);
        assert(amounts.take(amounts.len() - 1) =~= front);
        lemma_partial_sums_fit(ctx.game_stats.total_blocks_mined, front);
        lemma_increments_add_up(ctx, front);
        assert forall|k: int| 0 <= k < amounts.len() implies #[trigger] increment_blocks_mined_result(
            after_increments(ctx, amounts.take(k)),
            amounts[k],
        ) is Ok by {
            if k < front.len() {
                assert(front.take(k) =~= amounts.take(k));
                assert(front[k] == amounts[k]);
                assert(increment_blocks_mined_result(
                    after_increments(ctx, front.take(k)),
                    front[k],
                ) is Ok);
            }
        }
    }
}

/// Increments commute: where the caller is the authority and no partial sum
/// overflows, the same amounts in another order leave the same ledger.
pub proof fn lemma_increments_in_any_order(ctx: UpdateStats, a: Seq<u64>, b: Seq<u64>)
    requires
        ctx.authorized(),
        a.to_multiset() == b.to_multiset(),
        no_partial_sum_overflows(ctx.game_stats.total_blocks_mined, a),
    ensures
        no_partial_sum_overflows(ctx.game_stats.total_blocks_mined, b),
        after_increments(ctx, a) == after_increments(ctx, b),
{
    lemma_total_of_any_order(a, b);
    lemma_partial_sums_fit(ctx.game_stats.total_blocks_mined, a);
    lemma_partial_sums_fit(ctx.game_stats.total_blocks_mined, b);
    lemma_increments_add_up(ctx, a);
    lemma_increments_add_up(ctx, b);
}

/// A ledger is created once: after a call of `initialize`, whether it
/// succeeded or not, a ledger stands at the address, and a further call by
/// any caller fails with `AllocationError` and leaves that ledger as it is.
pub proof fn lemma_initialize_only_once(ctx: Initialize, next_caller: Pubkey)
    ensures
        initialize_state(ctx).game_stats is Some,
        initialize_result(
            Initialize { game_stats: initialize_state(ctx).game_stats, authority: next_caller },
        ) == Err::<(), ErrorCode>(ErrorCode::AllocationError),
        initialize_state(
            Initialize { game_stats: initialize_state(ctx).game_stats, authority: next_caller },
        ).game_stats == initialize_state(ctx).game_stats,
{
}

/// A counter does not wrap: where the caller is the authority and the sum
/// would pass `u64::MAX`, `increment_blocks_mined` fails with
/// `ArithmeticOverflow`, and so does `record_expansion` on a counter that
/// stands at `u64::MAX`. Both leave the ledger as it is.
pub proof fn lemma_overflow_is_refused(ctx: UpdateStats, amount: u64)
    requires
        ctx.authorized(),
    ensures
        ctx.game_stats.total_blocks_mined + amount > u64::MAX ==> increment_blocks_mined_result(
            ctx,
            amount,
        ) == Err::<(), ErrorCode>(ErrorCode::ArithmeticOverflow) && increment_blocks_mined_state(
            ctx,
            amount,
        ) == ctx,
        ctx.game_stats.total_blocks_mined == u64::MAX && amount > 0
            ==> increment_blocks_mined_result(ctx, amount) == Err::<(), ErrorCode>(
            ErrorCode::ArithmeticOverflow,
        ),
        ctx.game_stats.grid_expansions == u64::MAX ==> record_expansion_result(ctx) == Err::<
            (),
            ErrorCode,
        >(ErrorCode::ArithmeticOverflow) && record_expansion_state(ctx) == ctx,
{
}

/// Only the authority changes the ledger: each of the three updates, called
/// by anyone else, fails with `Unauthorized` and leaves the ledger as it is.
pub proof fn lemma_stranger_is_refused(ctx: UpdateStats, amount: u64, new_count: u64)
    requires
        !ctx.authorized(),
    ensures
        increment_blocks_mined_result(ctx, amount) == Err::<(), ErrorCode>(
            ErrorCode::Unauthorized,
        ),
        increment_blocks_mined_state(ctx, amount) == ctx,
        update_player_count_result(ctx, new_count) == Err::<(), ErrorCode>(
            ErrorCode::Unauthorized,
        ),
        update_player_count_state(ctx, new_count) == ctx,
        record_expansion_result(ctx) == Err::<(), ErrorCode>(ErrorCode::Unauthorized),
        record_expansion_state(ctx) == ctx,
{
}

/// The player count is overwritten: after a call by the authority it is the
/// count given, whatever it was before, and a second call with the same count
/// changes nothing.
pub proof fn lemma_player_count_is_overwritten(ctx: UpdateStats, prior: u64, new_count: u64)
    requires
        ctx.authorized(),
    ensures
        update_player_count_result(ctx, new_count) is Ok,
        update_player_count_state(ctx, new_count).game_stats.active_players == new_count,
        update_player_count_state(
            UpdateStats {
                game_stats: GameStats { active_players: prior, ..ctx.game_stats },
                authority: ctx.authority,
            },
            new_count,
        ) == update_player_count_state(ctx, new_count),
        update_player_count_state(update_player_count_state(ctx, new_count), new_count)
            == update_player_count_state(ctx, new_count),
{
}

} // verus!
