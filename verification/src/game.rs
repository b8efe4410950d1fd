//! The game record and its lifecycle state machine.
//!
//! A game moves along `Waiting -> Ongoing -> Completed`, or straight to
//! `Completed` by cancellation; no transition ever goes back. Every
//! operation either commits in full or fails with a [`GameError`] and
//! leaves the record untouched. Fund movement is expressed as
//! [`TransferInstruction`] values handed to the host ledger, which applies
//! each call atomically.

use vstd::prelude::*;

verus! {

/// Seconds an unmatched game must have existed before it may be cancelled.
pub const GAME_EXPIRY_SECONDS: i64 = 86400;

/// A participant or treasury address: 32 bytes, held as four 64-bit words
/// in little-endian order of significance.
#[derive(Clone, Copy, PartialEq, Eq, Structural, Debug)]
pub struct AccountId {
    pub w0: u64,
    pub w1: u64,
    pub w2: u64,
    pub w3: u64,
}

/// Lifecycle phase of a game record. Legal transitions are
/// Waiting -> Ongoing, Waiting -> Completed and Ongoing -> Completed;
/// Completed is terminal.
#[derive(Clone, Copy, PartialEq, Eq, Structural, Debug)]
pub enum GameStatus {
    Waiting,
    Ongoing,
    Completed,
}

/// Why an operation on a game was refused. Every failure is total: the
/// record is left exactly as it was and no transfer is issued.
#[derive(Clone, Copy, PartialEq, Eq, Structural, Debug)]
pub enum GameError {
    GameNotWaiting,
    GameNotStarted,
    InvalidWinner,
    InvalidWinnerAccount,
    GameNotExpired,
    InvalidStakeAmount,
    Overflow,
}

/// One debit the host ledger must execute: `amount` moves from `from` to
/// `to`, authorized by `authority` (the vault itself for outbound
/// transfers, the paying participant for deposits).
#[derive(Clone, Copy, PartialEq, Eq, Structural, Debug)]
pub struct TransferInstruction {
    pub from: AccountId,
    pub to: AccountId,
    pub authority: AccountId,
    pub amount: u64,
}

/// One two-party wager: creator, optional opponent, the per-participant
/// stake, the lifecycle status, the declared winner (present only when the
/// game completed by settlement) and the creation time in seconds.
#[derive(Clone, Copy, PartialEq, Eq, Structural, Debug)]
pub struct Game {
    pub player_one: AccountId,
    pub player_two: Option<AccountId>,
    pub stake_amount: u64,
    pub status: GameStatus,
    pub winner: Option<AccountId>,
    pub created_at: i64,
}

/// Only these status transitions may ever happen: stay put, start an
/// unmatched game, or complete a waiting or ongoing one.
pub open spec fn legal_transition(before: GameStatus, after: GameStatus) -> bool {
    ||| before == after
    ||| (before is Waiting && after is Ongoing)
    ||| (before is Waiting && after is Completed)
    ||| (before is Ongoing && after is Completed)
}

impl Game {
    /// Structural invariant of a record: no opponent or winner while
    /// waiting, no winner while ongoing, a winner only on a game completed
    /// by settlement and then one of its participants, and a positive
    /// stake.
    pub open spec fn wf(self) -> bool {
        &&& self.status is Waiting ==> self.player_two is None && self.winner is None
        &&& self.status is Ongoing ==> self.winner is None
        &&& self.winner is Some ==> self.status is Completed
            && (self.winner == Some(self.player_one) || self.winner == self.player_two)
        &&& self.stake_amount > 0
    }

    /// Runtime check of [`Game::wf`], for callers outside verified code.
    pub fn is_well_formed(&self) -> (r: bool)
        ensures
            r == self.wf(),
    {
        let waiting_ok = match self.status {
            GameStatus::Waiting => self.player_two.is_none() && self.winner.is_none(),
            _ => true,
        };
        let ongoing_ok = match self.status {
            GameStatus::Ongoing => self.winner.is_none(),
            _ => true,
        };
        let winner_ok = match self.winner {
            Some(w) => matches!(self.status, GameStatus::Completed)
                && (w == self.player_one || self.player_two == Some(w)),
            None => true,
        };
        waiting_ok && ongoing_ok && winner_ok && self.stake_amount > 0
    }
}

/// Creation of a game record: the stake must be positive.
pub open spec fn spec_create_game(creator: AccountId, stake_amount: u64, now: i64)
    -> Result<Game, GameError>
{
    if stake_amount == 0 {
        Err(GameError::InvalidStakeAmount)
    } else {
        Ok(Game {
            player_one: creator,
            player_two: None,
            stake_amount,
            status: GameStatus::Waiting,
            winner: None,
            created_at: now,
        })
    }
}

/// Joining fixes the opponent and starts the game; anything but a waiting
/// game refuses the join and stays as it was.
pub open spec fn spec_join_game(g: Game, joiner: AccountId) -> (Game, Result<(), GameError>) {
    if g.status is Waiting {
        (
            Game { player_two: Some(joiner), status: GameStatus::Ongoing, ..g },
            Ok(()),
        )
    } else {
        (g, Err(GameError::GameNotWaiting))
    }
}

/// A deposit of the fixed stake is accepted while the game is waiting or
/// ongoing; a deposit on a waiting game starts it.
pub open spec fn spec_deposit_stake(g: Game) -> (Game, Result<u64, GameError>) {
    if g.status is Waiting {
        (Game { status: GameStatus::Ongoing, ..g }, Ok(g.stake_amount))
    } else if g.status is Ongoing {
        (g, Ok(g.stake_amount))
    } else {
        (g, Err(GameError::GameNotWaiting))
    }
}

/// Creates a new wager: the creator locks in the per-participant stake and
/// the record starts out waiting for an opponent. A zero stake is refused.
pub fn create_game(creator: AccountId, stake_amount: u64, now: i64)
    -> (r: Result<Game, GameError>)
    ensures
        r == spec_create_game(creator, stake_amount, now),
        r is Ok ==> r->Ok_0.wf(),
{
    if stake_amount == 0 {
        return Err(GameError::InvalidStakeAmount);
    }
    Ok(Game {
        player_one: creator,
        player_two: None,
        stake_amount,
        status: GameStatus::Waiting,
        winner: None,
        created_at: now,
    })
}

impl Game {
    /// Joins a waiting game as the second participant: the opponent is
    /// fixed and the game becomes ongoing. On any other status the call
    /// fails with `GameNotWaiting` and changes nothing.
    pub fn join_game(&mut self, joiner: AccountId) -> (r: Result<(), GameError>)
        requires
            old(self).wf(),
        ensures
            *final(self) == spec_join_game(*old(self), joiner).0,
            r == spec_join_game(*old(self), joiner).1,
            final(self).wf(),
            legal_transition(old(self).status, final(self).status),
    {
        match self.status {
            GameStatus::Waiting => {
                self.player_two = Some(joiner);
                self.status = GameStatus::Ongoing;
                Ok(())
            }
            _ => Err(GameError::GameNotWaiting),
        }
    }

    /// Accepts a stake deposit while the game is waiting or ongoing, and
    /// returns the instruction that moves the fixed stake from the payer's
    /// balance into the vault; a deposit on a waiting game starts it. On a
    /// completed game the call fails with `GameNotWaiting` and changes
    /// nothing.
    pub fn deposit_stake(
        &mut self,
        payer: AccountId,
        payer_token_account: AccountId,
        escrow_account: AccountId,
    ) -> (r: Result<TransferInstruction, GameError>)
        requires
            old(self).wf(),
        ensures
            *final(self) == spec_deposit_stake(*old(self)).0,
            r is Ok <==> spec_deposit_stake(*old(self)).1 is Ok,
            r is Err ==> r->Err_0 == spec_deposit_stake(*old(self)).1->Err_0,
            r is Ok ==> r->Ok_0 == (TransferInstruction {
                from: payer_token_account,
                to: escrow_account,
                authority: payer,
                amount: old(self).stake_amount,
            }),
            final(self).wf(),
            legal_transition(old(self).status, final(self).status),
    {
        match self.status {
            GameStatus::Completed => Err(GameError::GameNotWaiting),
            GameStatus::Waiting => {
                self.status = GameStatus::Ongoing;
                Ok(TransferInstruction {
                    from: payer_token_account,
                    to: escrow_account,
                    authority: payer,
                    amount: self.stake_amount,
                })
            }
            GameStatus::Ongoing => Ok(TransferInstruction {
                from: payer_token_account,
                to: escrow_account,
                authority: payer,
                amount: self.stake_amount,
            }),
        }
    }
}

} // verus!
