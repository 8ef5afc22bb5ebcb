use vstd::prelude::*;
use crate::error::PointercrateError;
use crate::model::{Demon, Player};

verus! {

/// Demons at positions 1 to `LIST_SIZE` form the main list.
pub const LIST_SIZE: i16 = 50;

/// Demons after the main list, up to this position, form the extended list;
/// those after it are legacy.
pub const EXTENDED_LIST_SIZE: i16 = 100;

/// The first rule that a submission of `progress` by a player with the given
/// ban state, on a demon with the given position and requirement, breaks.
pub open spec fn rule_violation(
    player_banned: bool,
    position: i16,
    requirement: i16,
    progress: i16,
) -> Option<PointercrateError> {
    if player_banned {
        Some(PointercrateError::PlayerBanned)
    } else if position > EXTENDED_LIST_SIZE {
        Some(PointercrateError::SubmitLegacy)
    } else if position > LIST_SIZE && progress != 100 {
        Some(PointercrateError::Non100Extended)
    } else if progress > 100 || progress < requirement {
        Some(PointercrateError::InvalidProgress { requirement })
    } else {
        None
    }
}

/// Applies the eligibility rules, in order, to a submission whose player and
/// demon are resolved.
pub fn check_eligibility(player: &Player, demon: &Demon, progress: i16) -> (r: Result<(), PointercrateError>)
    ensures
        r == (match rule_violation(player.banned, demon.position, demon.requirement, progress) {
            Some(e) => Err(e),
            None => Ok(()),
        }),
{
    if player.banned {
        return Err(PointercrateError::PlayerBanned);
    }
    if demon.position > EXTENDED_LIST_SIZE {
        return Err(PointercrateError::SubmitLegacy);
    }
    if demon.position > LIST_SIZE && progress != 100 {
        return Err(PointercrateError::Non100Extended);
    }
    if progress > 100 || progress < demon.requirement {
        return Err(PointercrateError::InvalidProgress { requirement: demon.requirement });
    }
    Ok(())
}

} // verus!
