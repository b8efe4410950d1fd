//! Settlement of an ongoing game and the timeout-gated refund.
//!
//! Settlement splits the pooled stakes between the declared winner and the
//! platform treasury under a fixed five percent fee, completing the game;
//! cancellation refunds an unmatched stake once the game has sat waiting
//! for a day. Both drain the vault through instructions authorized by the
//! vault's own derived identity.

use vstd::prelude::*;

use crate::escrow::EscrowAuthority;
use crate::game::AccountId;
use crate::game::Game;
use crate::game::GameError;
use crate::game::GameStatus;
use crate::game::TransferInstruction;
use crate::game::GAME_EXPIRY_SECONDS;

verus! {

/// The platform's cut of a settled game: one twentieth of the pooled
/// stakes, rounded down.
pub open spec fn settlement_fee(stake_amount: u64) -> int {
    (2 * (stake_amount as int)) / 20
}

/// What the winner of a settled game receives: the pooled stakes less the
/// platform fee.
pub open spec fn settlement_reward(stake_amount: u64) -> int {
    2 * (stake_amount as int) - settlement_fee(stake_amount)
}

/// The two debits that settle a game: the reward to the winner's balance
/// and the fee to the treasury, both out of the vault under its own
/// authority. Both are issued together or not at all.
#[derive(Clone, Copy, PartialEq, Eq, Structural, Debug)]
pub struct Settlement {
    pub winner_payout: TransferInstruction,
    pub fee_payout: TransferInstruction,
}

/// Settlement of a game: only an ongoing game settles, only to a winner
/// who is one of its participants and whose claimed balance account is the
/// winner's own, and only when doubling the stake does not overflow. The
/// settled record is completed with that winner; amounts are the fee split.
pub open spec fn spec_settle_game(g: Game, winner: AccountId, winner_token_owner: AccountId)
    -> (Game, Result<(int, int), GameError>)
{
    if !(g.status is Ongoing) {
        (g, Err(GameError::GameNotStarted))
    } else if !(winner == g.player_one || g.player_two == Some(winner)) {
        (g, Err(GameError::InvalidWinner))
    } else if winner_token_owner != winner {
        (g, Err(GameError::InvalidWinnerAccount))
    } else if 2 * (g.stake_amount as int) > u64::MAX as int {
        (g, Err(GameError::Overflow))
    } else {
        (
            Game { status: GameStatus::Completed, winner: Some(winner), ..g },
            Ok((settlement_reward(g.stake_amount), settlement_fee(g.stake_amount))),
        )
    }
}

/// Cancellation of a game: only a still-waiting game cancels, and only
/// once a full day has passed since its creation. The cancelled record is
/// completed with no winner; the amount is the refunded stake.
pub open spec fn spec_cancel_game(g: Game, now: i64) -> (Game, Result<u64, GameError>) {
    if !(g.status is Waiting) {
        (g, Err(GameError::GameNotWaiting))
    } else if now - g.created_at < GAME_EXPIRY_SECONDS {
        (g, Err(GameError::GameNotExpired))
    } else {
        (Game { status: GameStatus::Completed, ..g }, Ok(g.stake_amount))
    }
}

impl Game {
    /// Settles an ongoing game: declares `winner`, completes the record and
    /// issues the two payouts — the pooled stakes less a five percent fee
    /// to the winner's balance account, the fee to the treasury — out of
    /// the vault under its own derived authority. The winner must be a
    /// participant and `winner_token_owner` (the owner of the winner's
    /// balance account) must be the winner; doubling the stake must not
    /// overflow. On any failure the record is unchanged and nothing is
    /// issued.
    pub fn settle_game(
        &mut self,
        winner: AccountId,
        winner_token_owner: AccountId,
        winner_token_account: AccountId,
        treasury_account: AccountId,
        escrow: &EscrowAuthority,
    ) -> (r: Result<Settlement, GameError>)
        requires
            old(self).wf(),
            escrow.spec_owner() == old(self).player_one,
        ensures
            *final(self) == spec_settle_game(*old(self), winner, winner_token_owner).0,
            final(self).wf(),
            crate::game::legal_transition(old(self).status, final(self).status),
            r is Ok <==> spec_settle_game(*old(self), winner, winner_token_owner).1 is Ok,
            r is Err ==> r->Err_0 == spec_settle_game(
                *old(self),
                winner,
                winner_token_owner,
            ).1->Err_0,
            r is Ok ==> ({
                let s = old(self).stake_amount;
                let vault = escrow.spec_address();
                &&& r->Ok_0.winner_payout.from == vault
                &&& r->Ok_0.winner_payout.to == winner_token_account
                &&& r->Ok_0.winner_payout.authority == vault
                &&& r->Ok_0.winner_payout.amount == settlement_reward(s)
                &&& r->Ok_0.fee_payout.from == vault
                &&& r->Ok_0.fee_payout.to == treasury_account
                &&& r->Ok_0.fee_payout.authority == vault
                &&& r->Ok_0.fee_payout.amount == settlement_fee(s)
                &&& r->Ok_0.winner_payout.amount + r->Ok_0.fee_payout.amount == 2 * s
                &&& final(self).winner == Some(winner)
            }),
    {
        if !matches!(self.status, GameStatus::Ongoing) {
            return Err(GameError::GameNotStarted);
        }
        if !(winner == self.player_one || self.player_two == Some(winner)) {
            return Err(GameError::InvalidWinner);
        }
        if winner_token_owner != winner {
            return Err(GameError::InvalidWinnerAccount);
        }
        if self.stake_amount > u64::MAX / 2 {
            return Err(GameError::Overflow);
        }
        let total_stake = self.stake_amount * 2;
        let platform_fee = total_stake / 20;
        let winner_reward = total_stake - platform_fee;

        self.winner = Some(winner);
        self.status = GameStatus::Completed;

        let vault = escrow.address();
        Ok(Settlement {
            winner_payout: TransferInstruction {
                from: vault,
                to: winner_token_account,
                authority: vault,
                amount: winner_reward,
            },
            fee_payout: TransferInstruction {
                from: vault,
                to: treasury_account,
                authority: vault,
                amount: platform_fee,
            },
        })
    }

    /// Cancels a game still waiting for an opponent, once a full day has
    /// passed since its creation: the record is completed with no winner
    /// and the creator's stake is refunded out of the vault under its own
    /// derived authority. On any failure the record is unchanged and
    /// nothing is issued.
    pub fn cancel_game(
        &mut self,
        now: i64,
        player_one_token_account: AccountId,
        escrow: &EscrowAuthority,
    ) -> (r: Result<TransferInstruction, GameError>)
        requires
            old(self).wf(),
            escrow.spec_owner() == old(self).player_one,
        ensures
            *final(self) == spec_cancel_game(*old(self), now).0,
            final(self).wf(),
            crate::game::legal_transition(old(self).status, final(self).status),
            r is Ok <==> spec_cancel_game(*old(self), now).1 is Ok,
            r is Err ==> r->Err_0 == spec_cancel_game(*old(self), now).1->Err_0,
            r is Ok ==> r->Ok_0 == (TransferInstruction {
                from: escrow.spec_address(),
                to: player_one_token_account,
                authority: escrow.spec_address(),
                amount: old(self).stake_amount,
            }),
            r is Ok ==> final(self).winner is None,
    {
        if !matches!(self.status, GameStatus::Waiting) {
            return Err(GameError::GameNotWaiting);
        }
        let time_elapsed: i128 = (now as i128) - (self.created_at as i128);
        if time_elapsed < GAME_EXPIRY_SECONDS as i128 {
            return Err(GameError::GameNotExpired);
        }
        self.status = GameStatus::Completed;
        let vault = escrow.address();
        Ok(TransferInstruction {
            from: vault,
            to: player_one_token_account,
            authority: vault,
            amount: self.stake_amount,
        })
    }
}

} // verus!
