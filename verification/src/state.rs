//! Account data for the wager escrow: the wager record itself, the
//! per-player tally, the error codes, and plain models of the accounts
//! that each instruction touches (an address plus a lamport balance).

use vstd::prelude::*;

verus! {

/// Smallest stake a wager may hold, in lamports.
pub const MIN_WAGER: u64 = 1000;

/// Largest stake a wager may hold, in lamports.
pub const MAX_WAGER: u64 = 1000000;

/// A 256-bit account address, held as four 64-bit words.
#[derive(Clone, Copy, Debug, PartialEq, Eq, Structural)]
pub struct Pubkey {
    pub w0: u64,
    pub w1: u64,
    pub w2: u64,
    pub w3: u64,
}

impl Pubkey {
    /// The all-zero address, which marks an absent player.
    pub open spec fn zero() -> Pubkey {
        Pubkey { w0: 0, w1: 0, w2: 0, w3: 0 }
    }
}

impl Default for Pubkey {
    fn default() -> (r: Pubkey)
        ensures
            r == Pubkey::zero(),
    {
        Pubkey { w0: 0, w1: 0, w2: 0, w3: 0 }
    }
}

/// The record of one two-player bet.
#[derive(Clone, Copy, Debug, PartialEq, Eq, Structural)]
pub struct GameWager {
    pub player_one: Pubkey,
    pub player_two: Pubkey,
    pub wager_amount: u64,
    pub game_started_at: i64,
    pub is_claimed: bool,
    pub bump: u8,
}

impl GameWager {
    /// A well-formed record stakes an amount within the fixed bounds.
    pub open spec fn wf(self) -> bool {
        MIN_WAGER <= self.wager_amount <= MAX_WAGER
    }
}

/// A per-player win/loss tally. Declared for the account layout; no
/// instruction creates, updates or reads it.
#[derive(Clone, Copy, Debug, PartialEq, Eq, Structural)]
pub struct PlayerScore {
    pub player: Pubkey,
    pub wins: u64,
    pub total_games: u64,
    pub total_winnings: u64,
    pub bump: u8,
}

/// The error codes an instruction can return.
#[derive(Clone, Copy, Debug, PartialEq, Eq, Structural)]
pub enum GameError {
    InvalidWagerAmount,
    AlreadyClaimed,
}

/// A plain account: its address and its lamport balance.
#[derive(Clone, Copy, Debug, PartialEq, Eq, Structural)]
pub struct SystemAccount {
    pub key: Pubkey,
    pub lamports: u64,
}

/// The account that holds a wager record and the pot staked on it.
#[derive(Clone, Copy, Debug, PartialEq, Eq, Structural)]
pub struct WagerAccount {
    pub lamports: u64,
    pub data: GameWager,
}

} // verus!
