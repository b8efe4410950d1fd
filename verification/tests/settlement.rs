use wager_escrow::create_game;
use wager_escrow::derive_escrow_authority;
use wager_escrow::AccountId;
use wager_escrow::Game;
use wager_escrow::GameError;
use wager_escrow::GameStatus;
use wager_escrow::TransferInstruction;
use wager_escrow::GAME_EXPIRY_SECONDS;

fn acct(n: u64) -> AccountId {
    AccountId { w0: n, w1: 0, w2: 0, w3: 0 }
}

fn ongoing_game(stake: u64) -> Game {
    let mut g = create_game(acct(1), stake, 0).unwrap();
    g.join_game(acct(2)).unwrap();
    g
}

fn authority_for(player_one: AccountId) -> wager_escrow::EscrowAuthority {
    derive_escrow_authority(&acct(7777), &player_one).unwrap()
}

/// A toy ledger of (account, balance) pairs on which the issued
/// instructions are executed, as the host would.
fn apply(balances: &mut Vec<(AccountId, u64)>, instr: &TransferInstruction) {
    for entry in balances.iter_mut() {
        if entry.0 == instr.from {
            entry.1 -= instr.amount;
        }
    }
    for entry in balances.iter_mut() {
        if entry.0 == instr.to {
            entry.1 += instr.amount;
        }
    }
}

fn balance_of(balances: &[(AccountId, u64)], who: AccountId) -> u64 {
    balances.iter().find(|e| e.0 == who).unwrap().1
}

#[test]
fn settle_game_splits_pool_between_winner_and_treasury() {
    let mut g = ongoing_game(1000);
    let auth = authority_for(acct(1));
    let s = g.settle_game(acct(1), acct(1), acct(11), acct(90), &auth).unwrap();
    assert_eq!(s.winner_payout.amount, 1900);
    assert_eq!(s.fee_payout.amount, 100);
    assert_eq!(s.winner_payout.amount + s.fee_payout.amount, 2000);
    assert_eq!(s.winner_payout.from, auth.address());
    assert_eq!(s.winner_payout.authority, auth.address());
    assert_eq!(s.winner_payout.to, acct(11));
    assert_eq!(s.fee_payout.from, auth.address());
    assert_eq!(s.fee_payout.authority, auth.address());
    assert_eq!(s.fee_payout.to, acct(90));
    assert_eq!(g.status, GameStatus::Completed);
    assert_eq!(g.winner, Some(acct(1)));
}

#[test]
fn settle_game_fee_rounds_down() {
    // Pool of 14: a twentieth is 0.7, floored to 0.
    let mut g = ongoing_game(7);
    let auth = authority_for(acct(1));
    let s = g.settle_game(acct(2), acct(2), acct(22), acct(90), &auth).unwrap();
    assert_eq!(s.fee_payout.amount, 0);
    assert_eq!(s.winner_payout.amount, 14);
    // Pool of 30: a twentieth is 1.5, floored to 1.
    let mut g2 = ongoing_game(15);
    let s2 = g2.settle_game(acct(2), acct(2), acct(22), acct(90), &auth).unwrap();
    assert_eq!(s2.fee_payout.amount, 1);
    assert_eq!(s2.winner_payout.amount, 29);
}

#[test]
fn settle_game_accepts_either_participant_as_winner() {
    let auth = authority_for(acct(1));
    let mut g = ongoing_game(100);
    assert!(g.settle_game(acct(1), acct(1), acct(11), acct(90), &auth).is_ok());
    assert_eq!(g.winner, Some(acct(1)));
    let mut g2 = ongoing_game(100);
    assert!(g2.settle_game(acct(2), acct(2), acct(22), acct(90), &auth).is_ok());
    assert_eq!(g2.winner, Some(acct(2)));
}

#[test]
fn settle_game_rejects_outside_winner_unchanged() {
    let mut g = ongoing_game(1000);
    let before = g;
    let auth = authority_for(acct(1));
    assert_eq!(
        g.settle_game(acct(3), acct(3), acct(33), acct(90), &auth),
        Err(GameError::InvalidWinner)
    );
    assert_eq!(g, before);
}

#[test]
fn settle_game_rejects_foreign_winner_account() {
    let mut g = ongoing_game(1000);
    let before = g;
    let auth = authority_for(acct(1));
    // The balance account is owned by someone other than the winner.
    assert_eq!(
        g.settle_game(acct(2), acct(3), acct(33), acct(90), &auth),
        Err(GameError::InvalidWinnerAccount)
    );
    assert_eq!(g, before);
}

#[test]
fn settle_game_on_waiting_fails_with_not_started() {
    let mut g = create_game(acct(1), 100, 0).unwrap();
    let before = g;
    let auth = authority_for(acct(1));
    assert_eq!(
        g.settle_game(acct(1), acct(1), acct(11), acct(90), &auth),
        Err(GameError::GameNotStarted)
    );
    assert_eq!(g, before);
}

#[test]
fn settle_game_overflow_is_refused_unchanged() {
    let mut g = ongoing_game(u64::MAX / 2 + 1);
    let before = g;
    let auth = authority_for(acct(1));
    assert_eq!(
        g.settle_game(acct(1), acct(1), acct(11), acct(90), &auth),
        Err(GameError::Overflow)
    );
    assert_eq!(g, before);
}

#[test]
fn settle_game_largest_safe_stake_settles() {
    let stake = u64::MAX / 2;
    let mut g = ongoing_game(stake);
    let auth = authority_for(acct(1));
    let s = g.settle_game(acct(1), acct(1), acct(11), acct(90), &auth).unwrap();
    let total = stake * 2;
    assert_eq!(s.fee_payout.amount, total / 20);
    assert_eq!(s.winner_payout.amount, total - total / 20);
}

#[test]
fn full_match_pays_winner_and_treasury() {
    // create(1000), join, both deposit, settle in favour of player one:
    // the winner's balance grows by 1900 and the treasury's by 100.
    let player_one = acct(1);
    let player_two = acct(2);
    let one_tokens = acct(11);
    let two_tokens = acct(22);
    let treasury = acct(90);
    let auth = authority_for(player_one);
    let vault = auth.address();
    let mut balances: Vec<(AccountId, u64)> =
        vec![(one_tokens, 5000), (two_tokens, 5000), (treasury, 0), (vault, 0)];

    let mut g = create_game(player_one, 1000, 0).unwrap();
    g.join_game(player_two).unwrap();
    let d1 = g.deposit_stake(player_one, one_tokens, vault).unwrap();
    apply(&mut balances, &d1);
    let d2 = g.deposit_stake(player_two, two_tokens, vault).unwrap();
    apply(&mut balances, &d2);
    assert_eq!(balance_of(&balances, vault), 2000);

    let s = g.settle_game(player_one, player_one, one_tokens, treasury, &auth).unwrap();
    apply(&mut balances, &s.winner_payout);
    apply(&mut balances, &s.fee_payout);

    assert_eq!(balance_of(&balances, one_tokens), 5000 - 1000 + 1900);
    assert_eq!(balance_of(&balances, treasury), 100);
    assert_eq!(balance_of(&balances, vault), 0);
    assert_eq!(g.status, GameStatus::Completed);
    assert_eq!(g.winner, Some(player_one));
}

#[test]
fn unmatched_game_refunds_creator_after_a_day() {
    // create(500), nobody joins, cancel a day later: the creator's balance
    // grows by the 500 sitting in the vault and the game completes with no
    // winner.
    let player_one = acct(1);
    let one_tokens = acct(11);
    let auth = authority_for(player_one);
    let vault = auth.address();
    let mut balances: Vec<(AccountId, u64)> = vec![(one_tokens, 300), (vault, 500)];

    let mut g = create_game(player_one, 500, 1000).unwrap();
    let refund = g.cancel_game(1000 + GAME_EXPIRY_SECONDS, one_tokens, &auth).unwrap();
    apply(&mut balances, &refund);

    assert_eq!(balance_of(&balances, one_tokens), 800);
    assert_eq!(balance_of(&balances, vault), 0);
    assert_eq!(g.status, GameStatus::Completed);
    assert_eq!(g.winner, None);
}
