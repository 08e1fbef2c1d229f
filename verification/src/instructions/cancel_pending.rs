//! The cancellation of a session whose entropy never came.

use vstd::prelude::*;
use anchor_lang::prelude::Pubkey;
use crate::constants::{CANCEL_TIMEOUT_SLOTS, ROLL_STATE_PENDING};
use crate::errors::RpgError;
use crate::state::battle::Battle;
use crate::state::roll_session::RollSession;
use crate::utils::validation::{cancel_due, validate_cancel_timeout};

verus! {

/// What the cancellation of a roll reports.
#[derive(Clone, Copy, Debug, PartialEq, Eq)]
pub struct PendingRollCanceled {
    pub player: Pubkey,
    pub hero: Pubkey,
    pub roll_session: Pubkey,
    pub slot: u64,
}

/// What the cancellation of a battle reports.
#[derive(Clone, Copy, Debug, PartialEq, Eq)]
pub struct PendingBattleCanceled {
    pub player: Pubkey,
    pub hero: Pubkey,
    pub battle: Pubkey,
    pub slot: u64,
}

/// Why a roll cannot be cancelled at `current_slot`, or `None` where it
/// can: only a pending session is cancelled, and only after the timeout.
pub open spec fn roll_cancel_rejection(roll_session: RollSession, current_slot: u64) -> Option<
    RpgError,
> {
    if roll_session.state != ROLL_STATE_PENDING {
        Some(RpgError::RollAlreadyCompleted)
    } else if !cancel_due(current_slot as int, roll_session.commit_slot as int) {
        Some(RpgError::CancelTimeoutNotExpired)
    } else {
        None
    }
}

/// Why a battle cannot be cancelled at `current_slot`, or `None` where it
/// can: only a battle that has seen no turn is cancelled, and only after
/// the timeout.
pub open spec fn battle_cancel_rejection(battle: Battle, current_slot: u64) -> Option<RpgError> {
    if battle.turn != 0 {
        Some(RpgError::BattleAlreadyCompleted)
    } else if !cancel_due(current_slot as int, battle.commit_slot as int) {
        Some(RpgError::CancelTimeoutNotExpired)
    } else {
        None
    }
}

/// Cancels a pending roll whose timeout has passed.
///
/// The session is taken by value: a cancelled session is gone, and only
/// the report of its cancellation is left. A session that cannot be
/// cancelled is handed back as it was, with the reason.
pub fn cancel_pending_roll(
    player_key: Pubkey,
    hero_key: Pubkey,
    roll_session_key: Pubkey,
    roll_session: RollSession,
    current_slot: u64,
) -> (canceled: Result<PendingRollCanceled, (RpgError, RollSession)>)
    ensures
        canceled == match roll_cancel_rejection(roll_session, current_slot) {
            Some(error) => Err::<PendingRollCanceled, (RpgError, RollSession)>(
                (error, roll_session),
            ),
            None => Ok::<PendingRollCanceled, (RpgError, RollSession)>(
                PendingRollCanceled {
                    player: player_key,
                    hero: hero_key,
                    roll_session: roll_session_key,
                    slot: current_slot,
                },
            ),
        },
{
    if !roll_session.is_pending() {
        return Err((RpgError::RollAlreadyCompleted, roll_session));
    }
    match validate_cancel_timeout(current_slot, roll_session.commit_slot) {
        Err(error) => Err((error, roll_session)),
        Ok(()) => Ok(
            PendingRollCanceled {
                player: player_key,
                hero: hero_key,
                roll_session: roll_session_key,
                slot: current_slot,
            },
        ),
    }
}

/// Cancels a battle that has seen no turn and whose timeout has passed.
///
/// The battle is taken by value: a cancelled battle is gone, and only the
/// report of its cancellation is left. A battle that cannot be cancelled
/// is handed back as it was, with the reason.
pub fn cancel_pending_battle(
    player_key: Pubkey,
    hero_key: Pubkey,
    battle_key: Pubkey,
    battle: Battle,
    current_slot: u64,
) -> (canceled: Result<PendingBattleCanceled, (RpgError, Battle)>)
    ensures
        canceled == match battle_cancel_rejection(battle, current_slot) {
            Some(error) => Err::<PendingBattleCanceled, (RpgError, Battle)>((error, battle)),
            None => Ok::<PendingBattleCanceled, (RpgError, Battle)>(
                PendingBattleCanceled {
                    player: player_key,
                    hero: hero_key,
                    battle: battle_key,
                    slot: current_slot,
                },
            ),
        },
{
    if battle.turn != 0 {
        return Err((RpgError::BattleAlreadyCompleted, battle));
    }
    match validate_cancel_timeout(current_slot, battle.commit_slot) {
        Err(error) => Err((error, battle)),
        Ok(()) => Ok(
            PendingBattleCanceled {
                player: player_key,
                hero: hero_key,
                battle: battle_key,
                slot: current_slot,
            },
        ),
    }
}

/// Up to the timeout no pending session is cancelled, and past it every
/// pending session is: the slot alone decides.
pub proof fn lemma_cancel_by_timeout(
    roll_session: RollSession,
    battle: Battle,
    current_slot: u64,
)
    requires
        roll_session.state == ROLL_STATE_PENDING,
        battle.turn == 0,
    ensures
        current_slot <= roll_session.commit_slot + CANCEL_TIMEOUT_SLOTS ==> roll_cancel_rejection(
            roll_session,
            current_slot,
        ) == Some(RpgError::CancelTimeoutNotExpired),
        current_slot > roll_session.commit_slot + CANCEL_TIMEOUT_SLOTS ==> roll_cancel_rejection(
            roll_session,
            current_slot,
        ).is_none(),
        current_slot <= battle.commit_slot + CANCEL_TIMEOUT_SLOTS ==> battle_cancel_rejection(
            battle,
            current_slot,
        ) == Some(RpgError::CancelTimeoutNotExpired),
        current_slot > battle.commit_slot + CANCEL_TIMEOUT_SLOTS ==> battle_cancel_rejection(
            battle,
            current_slot,
        ).is_none(),
{
}

} // verus!
