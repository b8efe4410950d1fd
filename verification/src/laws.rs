//! Laws of the lifecycle: properties that hold of every game, proved once
//! over the specification models that the operations' contracts are stated
//! against.

use vstd::prelude::*;

use crate::game::legal_transition;
use crate::game::spec_create_game;
use crate::game::spec_deposit_stake;
use crate::game::spec_join_game;
use crate::game::AccountId;
use crate::game::Game;
use crate::game::GameError;
use crate::game::GameStatus;
use crate::settlement::settlement_fee;
use crate::settlement::settlement_reward;
use crate::settlement::spec_cancel_game;
use crate::settlement::spec_settle_game;

verus! {

/// How far along its lifecycle a status is.
pub open spec fn status_rank(s: GameStatus) -> int {
    match s {
        GameStatus::Waiting => 0,
        GameStatus::Ongoing => 1,
        GameStatus::Completed => 2,
    }
}

/// Law: once a game is completed, joining, depositing, settling and
/// cancelling each fail with their respective precondition error and leave
/// every field of the record unchanged.
pub proof fn lemma_completed_is_terminal(
    g: Game,
    joiner: AccountId,
    winner: AccountId,
    winner_token_owner: AccountId,
    now: i64,
)
    requires
        g.status is Completed,
    ensures
        spec_join_game(g, joiner) == (g, Err::<(), GameError>(GameError::GameNotWaiting)),
        spec_deposit_stake(g) == (g, Err::<u64, GameError>(GameError::GameNotWaiting)),
        spec_settle_game(g, winner, winner_token_owner) == (
            g,
            Err::<(int, int), GameError>(GameError::GameNotStarted),
        ),
        spec_cancel_game(g, now) == (g, Err::<u64, GameError>(GameError::GameNotWaiting)),
{
}

/// Law: for every stake, settlement conserves the pool — the reward and
/// the fee sum to exactly twice the stake — and the fee is one twentieth
/// of the pool, rounded down, never more than the reward.
pub proof fn lemma_settlement_split(stake_amount: u64)
    ensures
        settlement_reward(stake_amount) + settlement_fee(stake_amount) == 2 * stake_amount,
        settlement_fee(stake_amount) == (2 * (stake_amount as int)) / 20,
        0 <= settlement_fee(stake_amount) <= settlement_reward(stake_amount),
{
}

/// Law: every operation moves a game's status only along the legal
/// transition table — Waiting to Ongoing, Waiting to Completed, Ongoing to
/// Completed — or leaves it where it was.
pub proof fn lemma_operations_respect_transition_table(
    g: Game,
    joiner: AccountId,
    winner: AccountId,
    winner_token_owner: AccountId,
    now: i64,
)
    ensures
        legal_transition(g.status, spec_join_game(g, joiner).0.status),
        legal_transition(g.status, spec_deposit_stake(g).0.status),
        legal_transition(g.status, spec_settle_game(g, winner, winner_token_owner).0.status),
        legal_transition(g.status, spec_cancel_game(g, now).0.status),
{
}

/// Law: a legal transition never moves a status backwards, so status is
/// monotonic non-decreasing over a game's life.
pub proof fn lemma_legal_transition_is_monotonic(before: GameStatus, after: GameStatus)
    requires
        legal_transition(before, after),
    ensures
        status_rank(before) <= status_rank(after),
{
}

/// Law: creation establishes the record invariant, and every operation on
/// a record that satisfies it yields a record that still does.
pub proof fn lemma_operations_preserve_wf(
    g: Game,
    creator: AccountId,
    stake_amount: u64,
    joiner: AccountId,
    winner: AccountId,
    winner_token_owner: AccountId,
    now: i64,
)
    requires
        g.wf(),
    ensures
        spec_create_game(creator, stake_amount, now) is Ok ==> spec_create_game(
            creator,
            stake_amount,
            now,
        )->Ok_0.wf(),
        spec_join_game(g, joiner).0.wf(),
        spec_deposit_stake(g).0.wf(),
        spec_settle_game(g, winner, winner_token_owner).0.wf(),
        spec_cancel_game(g, now).0.wf(),
{
}

} // verus!
