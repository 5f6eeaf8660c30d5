//! Input mapping: raw device readings, already reduced to plain booleans by
//! the host, become the tick's abstract movement intents. Keyboard and
//! gamepad agree on the intent order: attack, horizontal, jump, jump abort.

use vstd::prelude::*;

use crate::state::{Direction, MovementAction};

verus! {

/// The intents one input source contributes in one tick, given its reduced
/// button state: attack, then one horizontal direction (rightward wins over
/// leftward), then jump while the jump button is held, then a jump abort on
/// its release.
pub open spec fn mapped_intents(
    attack: bool,
    right: bool,
    left: bool,
    jump: bool,
    jump_released: bool,
) -> Seq<MovementAction> {
    let with_attack: Seq<MovementAction> = if attack {
        seq![MovementAction::Attack]
    } else {
        seq![]
    };
    let with_dir: Seq<MovementAction> = if right {
        with_attack.push(MovementAction::Horizontal(Direction { x: 1i64, y: 0i64 }))
    } else if left {
        with_attack.push(MovementAction::Horizontal(Direction { x: -1i64, y: 0i64 }))
    } else {
        with_attack
    };
    let with_jump: Seq<MovementAction> = if jump {
        with_dir.push(MovementAction::Jump)
    } else {
        with_dir
    };
    if jump_released {
        with_jump.push(MovementAction::JumpAbort)
    } else {
        with_jump
    }
}

/// Translates one tick of reduced keyboard state into movement intents:
/// `attack` while the attack key is down, `right`/`left` from the movement
/// keys, `jump` while the jump key is down, `jump_released` on the tick the
/// jump key went up.
pub fn keyboard_input_system(
    attack: bool,
    right: bool,
    left: bool,
    jump: bool,
    jump_released: bool,
) -> (intents: Vec<MovementAction>)
    ensures
        intents@ == mapped_intents(attack, right, left, jump, jump_released),
        forall|i: int| 0 <= i < intents@.len() ==> (#[trigger] intents@[i]).wf(),
{
    let mut intents: Vec<MovementAction> = Vec::new();
    if attack {
        intents.push(MovementAction::Attack);
    }
    if right {
        intents.push(MovementAction::Horizontal(Direction { x: 1, y: 0 }));
    } else if left {
        intents.push(MovementAction::Horizontal(Direction { x: -1, y: 0 }));
    }
    if jump {
        intents.push(MovementAction::Jump);
    }
    if jump_released {
        intents.push(MovementAction::JumpAbort);
    }
    assert(intents@ =~= mapped_intents(attack, right, left, jump, jump_released));
    intents
}

/// Translates one tick of reduced gamepad state into movement intents, with
/// the same order and meaning as the keyboard: `attack` on the tick the
/// attack button went down, `right`/`left` from the directional pad, `jump`
/// while the jump button is down, `jump_released` on its release.
pub fn gamepad_input_system(
    attack: bool,
    right: bool,
    left: bool,
    jump: bool,
    jump_released: bool,
) -> (intents: Vec<MovementAction>)
    ensures
        intents@ == mapped_intents(attack, right, left, jump, jump_released),
        forall|i: int| 0 <= i < intents@.len() ==> (#[trigger] intents@[i]).wf(),
{
    keyboard_input_system(attack, right, left, jump, jump_released)
}

} // verus!
