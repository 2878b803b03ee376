//! The instruction handlers, written over plain accounts. Each handler
//! states exactly how it moves lamports and rewrites the wager record;
//! the host runtime's part (address derivation, signature presence,
//! the actual system transfer, sysvar reads) stays outside and hands
//! the handlers plain values.

use vstd::prelude::*;

use crate::state::GameError;
use crate::state::GameWager;
use crate::state::MAX_WAGER;
use crate::state::MIN_WAGER;
use crate::state::Pubkey;
use crate::state::SystemAccount;
use crate::state::WagerAccount;

verus! {

/// The accounts that funding a new wager touches: the first player,
/// who signs and stakes, and the fresh wager account, with the nonce
/// the runtime found for its address.
#[derive(Clone, Copy, Debug, PartialEq, Eq, Structural)]
pub struct InitializeWager {
    pub player_one: SystemAccount,
    pub game_wager: WagerAccount,
    pub bump: u8,
}

/// The accounts that joining a wager touches: the second player, who
/// signs and stakes, and the wager account they join.
#[derive(Clone, Copy, Debug, PartialEq, Eq, Structural)]
pub struct JoinWager {
    pub player_two: SystemAccount,
    pub game_wager: WagerAccount,
}

/// The accounts that settling a wager touches: the server authority
/// (its authority over the wager is not verified), the wager account,
/// and the winner the pot is paid to.
#[derive(Clone, Copy, Debug, PartialEq, Eq, Structural)]
pub struct ClaimWager {
    pub server: SystemAccount,
    pub game_wager: WagerAccount,
    pub winner: SystemAccount,
}

/// The accounts that cancelling a wager touches: the server authority
/// (its authority over the wager is not verified), the wager account,
/// and the two players the stakes go back to.
#[derive(Clone, Copy, Debug, PartialEq, Eq, Structural)]
pub struct CancelWager {
    pub server: SystemAccount,
    pub game_wager: WagerAccount,
    pub player_one: SystemAccount,
    pub player_two: SystemAccount,
}

/// The accounts that finalizing a game touches: none are defined yet.
#[derive(Clone, Copy, Debug, PartialEq, Eq, Structural)]
pub struct FinalizeGame {}

/// Moves `amount` lamports between two balances, as the system
/// program's transfer does.
pub fn transfer_lamports(from: &mut u64, to: &mut u64, amount: u64)
    requires
        *old(from) >= amount,
        *old(to) + amount <= u64::MAX,
    ensures
        *final(from) == *old(from) - amount,
        *final(to) == *old(to) + amount,
{
    *from = *from - amount;
    *to = *to + amount;
}

/// Funds a new wager: rejects a stake outside the fixed bounds, else
/// writes the record and moves the stake from the first player into
/// the pot.
pub fn initialize_wager(ctx: &mut InitializeWager, wager_amount: u64) -> (r: Result<(), GameError>)
    requires
        MIN_WAGER <= wager_amount <= MAX_WAGER ==> {
            &&& old(ctx).player_one.lamports >= wager_amount
            &&& old(ctx).game_wager.lamports + wager_amount <= u64::MAX
        },
    ensures
        r is Ok <==> MIN_WAGER <= wager_amount <= MAX_WAGER,
        r is Err ==> r == Err::<(), GameError>(GameError::InvalidWagerAmount) && *final(ctx)
            == *old(ctx),
        r is Ok ==> final(ctx).game_wager.data == (GameWager {
            player_one: old(ctx).player_one.key,
            player_two: Pubkey::zero(),
            wager_amount,
            game_started_at: 0,
            is_claimed: false,
            bump: old(ctx).bump,
        }),
        r is Ok ==> final(ctx).game_wager.data.wf(),
        r is Ok ==> final(ctx).player_one.lamports == old(ctx).player_one.lamports - wager_amount
            && final(ctx).game_wager.lamports == old(ctx).game_wager.lamports + wager_amount,
        final(ctx).player_one.key == old(ctx).player_one.key,
        final(ctx).bump == old(ctx).bump,
        final(ctx).player_one.lamports + final(ctx).game_wager.lamports == old(ctx).player_one.lamports + old(ctx).game_wager.lamports,
{
    if !(wager_amount >= MIN_WAGER && wager_amount <= MAX_WAGER) {
        return Err(GameError::InvalidWagerAmount);
    }

    ctx.game_wager.data = GameWager {
        player_one: ctx.player_one.key,
        player_two: Pubkey::default(),
        wager_amount,
        game_started_at: 0,
        is_claimed: false,
        bump: ctx.bump,
    };

    transfer_lamports(&mut ctx.player_one.lamports, &mut ctx.game_wager.lamports, wager_amount);

    Ok(())
}

/// Joins a wager: records the second player and the start time handed
/// in by the caller (the runtime's clock), and moves the matching
/// stake from the second player into the pot. Nothing is checked: a
/// wager can be joined again, or after it was claimed.
pub fn join_wager(ctx: &mut JoinWager, now: i64) -> (r: Result<(), GameError>)
    requires
        old(ctx).player_two.lamports >= old(ctx).game_wager.data.wager_amount,
        old(ctx).game_wager.lamports + old(ctx).game_wager.data.wager_amount <= u64::MAX,
    ensures
        r == Ok::<(), GameError>(()),
        final(ctx).game_wager.data == (GameWager {
            player_two: old(ctx).player_two.key,
            game_started_at: now,
            ..old(ctx).game_wager.data
        }),
        final(ctx).player_two.lamports == old(ctx).player_two.lamports - old(ctx).game_wager.data.wager_amount,
        final(ctx).game_wager.lamports == old(ctx).game_wager.lamports + old(ctx).game_wager.data.wager_amount,
        final(ctx).player_two.key == old(ctx).player_two.key,
        final(ctx).player_two.lamports + final(ctx).game_wager.lamports == old(ctx).player_two.lamports + old(ctx).game_wager.lamports,
{
    ctx.game_wager.data.player_two = ctx.player_two.key;
    ctx.game_wager.data.game_started_at = now;

    let amount = ctx.game_wager.data.wager_amount;
    transfer_lamports(&mut ctx.player_two.lamports, &mut ctx.game_wager.lamports, amount);

    Ok(())
}

/// What settling pays out: the pot above the rent-exempt reserve, and
/// nothing when the pot does not reach the reserve.
pub open spec fn claim_payout(pot: u64, rent_exempt_reserve: u64) -> int {
    if pot >= rent_exempt_reserve {
        pot - rent_exempt_reserve
    } else {
        0
    }
}

/// Settles a wager: rejects a second claim, else pays the pot above
/// the rent-exempt reserve (handed in by the caller from the runtime's
/// rent sysvar) to the winner and marks the record claimed. Which
/// server may settle is not verified.
pub fn claim_wager(ctx: &mut ClaimWager, rent_exempt_reserve: u64) -> (r: Result<(), GameError>)
    requires
        !old(ctx).game_wager.data.is_claimed ==> old(ctx).winner.lamports + claim_payout(
            old(ctx).game_wager.lamports,
            rent_exempt_reserve,
        ) <= u64::MAX,
    ensures
        r is Ok <==> !old(ctx).game_wager.data.is_claimed,
        r is Err ==> r == Err::<(), GameError>(GameError::AlreadyClaimed) && *final(ctx) == *old(ctx),
        r is Ok ==> final(ctx).game_wager.data == (GameWager {
            is_claimed: true,
            ..old(ctx).game_wager.data
        }),
        r is Ok ==> final(ctx).game_wager.lamports == old(ctx).game_wager.lamports - claim_payout(
            old(ctx).game_wager.lamports,
            rent_exempt_reserve,
        ),
        r is Ok ==> final(ctx).winner.lamports == old(ctx).winner.lamports + claim_payout(
            old(ctx).game_wager.lamports,
            rent_exempt_reserve,
        ),
        final(ctx).server == old(ctx).server,
        final(ctx).winner.key == old(ctx).winner.key,
        final(ctx).game_wager.lamports + final(ctx).winner.lamports == old(ctx).game_wager.lamports + old(ctx).winner.lamports,
{
    if ctx.game_wager.data.is_claimed {
        return Err(GameError::AlreadyClaimed);
    }

    let total_balance = ctx.game_wager.lamports;
    let transfer_amount: u64 = if total_balance >= rent_exempt_reserve {
        total_balance - rent_exempt_reserve
    } else {
        0
    };

    transfer_lamports(&mut ctx.game_wager.lamports, &mut ctx.winner.lamports, transfer_amount);

    ctx.game_wager.data.is_claimed = true;

    Ok(())
}

/// Cancels a wager: returns one stake to the first player, and one to
/// the second player as well where one has joined (a non-zero second
/// address). Neither the claimed flag nor the server's authority is
/// checked, so a claimed wager can still be cancelled.
pub fn cancel_wager(ctx: &mut CancelWager) -> (r: Result<(), GameError>)
    requires
        old(ctx).game_wager.lamports >= old(ctx).game_wager.data.wager_amount,
        old(ctx).player_one.lamports + old(ctx).game_wager.data.wager_amount <= u64::MAX,
        old(ctx).game_wager.data.player_two != Pubkey::zero() ==> {
            &&& old(ctx).game_wager.lamports >= old(ctx).game_wager.data.wager_amount + old(ctx).game_wager.data.wager_amount
            &&& old(ctx).player_two.lamports + old(ctx).game_wager.data.wager_amount <= u64::MAX
        },
    ensures
        r == Ok::<(), GameError>(()),
        final(ctx).game_wager.data == old(ctx).game_wager.data,
        final(ctx).server == old(ctx).server,
        final(ctx).player_one.key == old(ctx).player_one.key,
        final(ctx).player_two.key == old(ctx).player_two.key,
        final(ctx).player_one.lamports == old(ctx).player_one.lamports + old(ctx).game_wager.data.wager_amount,
        old(ctx).game_wager.data.player_two != Pubkey::zero() ==> {
            &&& final(ctx).player_two.lamports == old(ctx).player_two.lamports + old(ctx).game_wager.data.wager_amount
            &&& final(ctx).game_wager.lamports == old(ctx).game_wager.lamports - 2 * old(ctx).game_wager.data.wager_amount
        },
        old(ctx).game_wager.data.player_two == Pubkey::zero() ==> {
            &&& final(ctx).player_two == old(ctx).player_two
            &&& final(ctx).game_wager.lamports == old(ctx).game_wager.lamports - old(ctx).game_wager.data.wager_amount
        },
        final(ctx).game_wager.lamports + final(ctx).player_one.lamports + final(ctx).player_two.lamports == old(ctx).game_wager.lamports + old(ctx).player_one.lamports + old(ctx).player_two.lamports,
{
    let wager_amount = ctx.game_wager.data.wager_amount;

    transfer_lamports(&mut ctx.game_wager.lamports, &mut ctx.player_one.lamports, wager_amount);

    if ctx.game_wager.data.player_two != Pubkey::default() {
        transfer_lamports(&mut ctx.game_wager.lamports, &mut ctx.player_two.lamports, wager_amount);
    }

    Ok(())
}

/// Finalizes a game. The instruction is a stub: it touches no account
/// and always succeeds.
pub fn finalize_game(_ctx: FinalizeGame, _wager_amount: u64) -> (r: Result<(), GameError>)
    ensures
        r == Ok::<(), GameError>(()),
{
    Ok(())
}

} // verus!
