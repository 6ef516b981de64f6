//! Character motion controller: turns the state of the movement keys into the
//! locomotion intent ("basis") and the jump intent ("action") that the physics
//! side resolves each fixed step.
use vstd::prelude::*;

verus! {

/// Top horizontal speed of the player, in world units per second.
pub const MAX_SPEED: i32 = 50;

/// Horizontal acceleration while grounded, in world units per second squared.
pub const GROUND_ACCELERATION: u32 = 100;

/// Horizontal acceleration while airborne, in world units per second squared.
pub const AIR_ACCELERATION: u32 = 75;

/// Clearance kept between the player's shape and the ground, in hundredths of
/// a world unit.
pub const FLOAT_HEIGHT_HUNDREDTHS: u32 = 10;

/// Height that a jump aims to reach, in world units.
pub const JUMP_HEIGHT: u32 = 30;

/// Pressed state of the three keys that drive the player, polled once per tick.
#[derive(Clone, Copy, Debug, PartialEq, Eq)]
pub struct Keys {
    pub left: bool,
    pub right: bool,
    pub jump: bool,
}

/// Continuous locomotion intent for one tick.
#[derive(Clone, Copy, Debug, PartialEq, Eq)]
pub struct WalkBasis {
    /// Desired velocity along X, in world units per second.
    pub desired_velocity_x: i32,
    pub acceleration: u32,
    pub air_acceleration: u32,
    pub float_height_hundredths: u32,
}

/// A jump request.
#[derive(Clone, Copy, Debug, PartialEq, Eq)]
pub struct JumpAction {
    /// Height the jump aims to reach, in world units.
    pub height: u32,
}

/// The intent held by the player's controller: what the physics side reads
/// on its next step.
#[derive(Clone, Copy, Debug, PartialEq, Eq)]
pub struct ControllerState {
    pub basis: Option<WalkBasis>,
    pub action: Option<JumpAction>,
}

/// Direction along X that the keys ask for: -1, 0 or 1. Both keys together
/// cancel out.
pub open spec fn direction_of(left: bool, right: bool) -> int {
    (if right { 1int } else { 0int }) - (if left { 1int } else { 0int })
}

pub open spec fn basis_of(left: bool, right: bool) -> WalkBasis {
    WalkBasis {
        desired_velocity_x: (MAX_SPEED * direction_of(left, right)) as i32,
        acceleration: GROUND_ACCELERATION,
        air_acceleration: AIR_ACCELERATION,
        float_height_hundredths: FLOAT_HEIGHT_HUNDREDTHS,
    }
}

pub open spec fn action_of(jump: bool) -> Option<JumpAction> {
    if jump {
        Some(JumpAction { height: JUMP_HEIGHT })
    } else {
        None
    }
}

/// The controller after one tick with the given keys.
pub open spec fn controlled(keys: Keys) -> ControllerState {
    ControllerState { basis: Some(basis_of(keys.left, keys.right)), action: action_of(keys.jump) }
}

/// Sums the unit steps that the two keys ask for and scales the unit
/// direction to the top speed.
pub fn walk_basis(left: bool, right: bool) -> (r: WalkBasis)
    ensures
        r == basis_of(left, right),
        left == right ==> r.desired_velocity_x == 0,
        !left && right ==> r.desired_velocity_x == MAX_SPEED,
        left && !right ==> r.desired_velocity_x == -MAX_SPEED,
{
    let mut direction: i32 = 0;
    if left {
        direction = direction - 1;
    }
    if right {
        direction = direction + 1;
    }
    WalkBasis {
        desired_velocity_x: MAX_SPEED * direction,
        acceleration: GROUND_ACCELERATION,
        air_acceleration: AIR_ACCELERATION,
        float_height_hundredths: FLOAT_HEIGHT_HUNDREDTHS,
    }
}

/// A jump request while the jump key is held, none otherwise.
pub fn jump_action(jump: bool) -> (r: Option<JumpAction>)
    ensures
        r == action_of(jump),
        r is Some <==> jump,
{
    if jump {
        Some(JumpAction { height: JUMP_HEIGHT })
    } else {
        None
    }
}

/// Publishes this tick's intent into the controller: the walk basis always,
/// the jump action only while the jump key is held.
pub fn apply_controls(controller: &mut ControllerState, keys: Keys)
    ensures
        *final(controller) == controlled(keys),
        final(controller).action is Some <==> keys.jump,
{
    controller.basis = Some(walk_basis(keys.left, keys.right));
    controller.action = jump_action(keys.jump);
}

/// One controller step over the player slot: with no player present nothing
/// happens.
pub fn control_step(player: &mut Option<ControllerState>, keys: Keys)
    ensures
        *old(player) is None ==> *final(player) == *old(player),
        *old(player) is Some ==> *final(player) == Some(controlled(keys)),
{
    if let Some(controller) = player {
        apply_controls(controller, keys);
    }
}

/// The controller after a run of ticks, one key state per tick, in order.
pub open spec fn run_ticks(start: ControllerState, ticks: Seq<Keys>) -> ControllerState
    decreases ticks.len(),
{
    if ticks.len() == 0 {
        start
    } else {
        run_ticks(controlled(ticks[0]), ticks.drop_first())
    }
}

/// After any run of ticks, a jump is requested exactly when the jump key is
/// held on the last tick, whatever came before: releasing the key stops the
/// requests and pressing it again asks anew. The walk basis likewise follows
/// the last tick's keys.
pub proof fn lemma_jump_follows_key(start: ControllerState, ticks: Seq<Keys>)
    requires
        ticks.len() > 0,
    ensures
        run_ticks(start, ticks) == controlled(ticks.last()),
        run_ticks(start, ticks).action is Some <==> ticks.last().jump,
    decreases ticks.len(),
{
    let rest = ticks.drop_first();
    assert(run_ticks(start, ticks) == run_ticks(controlled(ticks[0]), rest));
    if ticks.len() > 1 {
        lemma_jump_follows_key(controlled(ticks[0]), rest);
        assert(rest.last() == ticks.last());
    } else {
        assert(run_ticks(controlled(ticks[0]), rest) == controlled(ticks[0]));
    }
}

} // verus!
