//! Escrow-backed two-party wager settlement.
//!
//! Two participants each lock a fixed stake into a custodial vault whose
//! authority is derived, not held by any key; a declared winner and the
//! platform treasury split the pool under a fixed fee rate, and an unmatched
//! stake may be refunded after a timeout.

mod escrow;
mod game;
mod laws;
mod settlement;

pub use escrow::derive_escrow_authority;
pub use escrow::escrow_derivation;
pub use escrow::id_bytes;
pub use escrow::EscrowAuthority;
pub use game::create_game;
pub use game::legal_transition;
pub use game::spec_create_game;
pub use game::spec_deposit_stake;
pub use game::spec_join_game;
pub use game::AccountId;
pub use game::Game;
pub use game::GameError;
pub use game::GameStatus;
pub use game::TransferInstruction;
pub use game::GAME_EXPIRY_SECONDS;
pub use laws::lemma_completed_is_terminal;
pub use laws::lemma_legal_transition_is_monotonic;
pub use laws::lemma_operations_preserve_wf;
pub use laws::lemma_operations_respect_transition_table;
pub use laws::lemma_settlement_split;
pub use laws::status_rank;
pub use settlement::settlement_fee;
pub use settlement::settlement_reward;
pub use settlement::spec_cancel_game;
pub use settlement::spec_settle_game;
pub use settlement::Settlement;
