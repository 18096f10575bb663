//! Decoded input-device state and the per-tick input pass.

use vstd::prelude::*;

use crate::common::opt_to_seq;
use crate::player::{Unit, UnitChanged, UnitState};

verus! {

/// Which physical device currently drives the player.
#[derive(Clone, Copy, Debug, PartialEq, Eq, Structural)]
pub enum InputKind {
    Keyboard,
    Gamepad,
}

impl Default for InputKind {
    fn default() -> (k: InputKind)
        ensures
            k == InputKind::Keyboard,
    {
        InputKind::Keyboard
    }
}

/// One key or pad button, as decoded for the current tick.
#[derive(Clone, Copy, Debug, PartialEq, Eq, Structural)]
pub struct ButtonState {
    pub pressed: bool,
    pub just_pressed: bool,
    pub just_released: bool,
}

/// The keyboard keys the game reads, one record per tick.
#[derive(Clone, Copy, Debug, PartialEq, Eq, Structural)]
pub struct KeyboardState {
    pub left: ButtonState,
    pub up: ButtonState,
    pub down: ButtonState,
    pub right: ButtonState,
    pub jump: ButtonState,
    pub dash: ButtonState,
    pub attack: ButtonState,
}

/// The gamepad controls the game reads.  Stick axes are in thousandths of
/// full deflection, positive rightward and upward.
#[derive(Clone, Copy, Debug, PartialEq, Eq, Structural)]
pub struct GamepadState {
    pub dpad_left: ButtonState,
    pub dpad_right: ButtonState,
    pub dpad_up: ButtonState,
    pub dpad_down: ButtonState,
    pub south: ButtonState,
    pub east: ButtonState,
    pub west: ButtonState,
    pub left_stick_x: i32,
    pub left_stick_y: i32,
}

/// Stick deflection below which an axis counts as centered, in thousandths.
pub const STICK_DEADZONE: i32 = 10;

/// One direction an actor may move in.
#[derive(Clone, Copy, Debug, PartialEq, Eq, Structural, Hash)]
pub enum Moving {
    Left,
    Up,
    Down,
    Right,
}

/// The set of directions active on an actor this tick.
#[derive(Clone, Copy, Debug, PartialEq, Eq, Structural)]
pub struct Movements {
    pub left: bool,
    pub up: bool,
    pub down: bool,
    pub right: bool,
}

/// Which way an actor faces.
#[derive(Clone, Copy, Debug, PartialEq, Eq, Structural)]
pub enum Orientation {
    Left,
    Right,
}

/// The active device's state for one tick.
#[derive(Clone, Copy, Debug, PartialEq, Eq, Structural)]
pub enum PlayerInput {
    Keyboard { keys: KeyboardState },
    Gamepad { pad: GamepadState },
}

impl Movements {
    /// The direction set read from the keyboard arrows.
    pub open spec fn spec_from_keyboard(keys: KeyboardState) -> Movements {
        Movements {
            left: keys.left.pressed,
            up: keys.up.pressed,
            down: keys.down.pressed,
            right: keys.right.pressed,
        }
    }

    /// The direction set read from the pad: a direction is active when its
    /// d-pad button is held or the stick leaves the deadzone that way.
    pub open spec fn spec_from_gamepad(pad: GamepadState) -> Movements {
        Movements {
            left: pad.dpad_left.pressed || pad.left_stick_x < -STICK_DEADZONE,
            up: pad.dpad_up.pressed || pad.left_stick_y > STICK_DEADZONE,
            down: pad.dpad_down.pressed || pad.left_stick_y < -STICK_DEADZONE,
            right: pad.dpad_right.pressed || pad.left_stick_x > STICK_DEADZONE,
        }
    }

    /// The direction set of whichever device is active.
    pub open spec fn spec_from_input(input: PlayerInput) -> Movements {
        match input {
            PlayerInput::Keyboard { keys } => Movements::spec_from_keyboard(keys),
            PlayerInput::Gamepad { pad } => Movements::spec_from_gamepad(pad),
        }
    }

    /// The synthetic direction set a dash supplies: only the facing direction.
    pub open spec fn spec_from_orientation(orientation: Orientation) -> Movements {
        match orientation {
            Orientation::Left => Movements { left: true, up: false, down: false, right: false },
            Orientation::Right => Movements { left: false, up: false, down: false, right: true },
        }
    }

    /// Whether `m` is in the set.
    pub open spec fn spec_contains(self, m: Moving) -> bool {
        match m {
            Moving::Left => self.left,
            Moving::Up => self.up,
            Moving::Down => self.down,
            Moving::Right => self.right,
        }
    }

    pub fn from_keyboard(keys: &KeyboardState) -> (m: Movements)
        ensures
            m == Movements::spec_from_keyboard(*keys),
    {
        Movements {
            left: keys.left.pressed,
            up: keys.up.pressed,
            down: keys.down.pressed,
            right: keys.right.pressed,
        }
    }

    pub fn from_gamepad(pad: &GamepadState) -> (m: Movements)
        ensures
            m == Movements::spec_from_gamepad(*pad),
    {
        Movements {
            left: pad.dpad_left.pressed || pad.left_stick_x < -STICK_DEADZONE,
            up: pad.dpad_up.pressed || pad.left_stick_y > STICK_DEADZONE,
            down: pad.dpad_down.pressed || pad.left_stick_y < -STICK_DEADZONE,
            right: pad.dpad_right.pressed || pad.left_stick_x > STICK_DEADZONE,
        }
    }

    pub fn from_input(input: &PlayerInput) -> (m: Movements)
        ensures
            m == Movements::spec_from_input(*input),
    {
        match input {
            PlayerInput::Keyboard { keys } => Movements::from_keyboard(keys),
            PlayerInput::Gamepad { pad } => Movements::from_gamepad(pad),
        }
    }

    pub fn from_orientation(orientation: Orientation) -> (m: Movements)
        ensures
            m == Movements::spec_from_orientation(orientation),
    {
        match orientation {
            Orientation::Left => Movements {
                left: true,
                up: false,
                down: false,
                right: false,
            },
            Orientation::Right => Movements {
                left: false,
                up: false,
                down: false,
                right: true,
            },
        }
    }

    pub fn contains(&self, m: Moving) -> (r: bool)
        ensures
            r == self.spec_contains(m),
    {
        match m {
            Moving::Left => self.left,
            Moving::Up => self.up,
            Moving::Down => self.down,
            Moving::Right => self.right,
        }
    }
}

impl Orientation {
    /// The facing change the keyboard requests, if any: a fresh press of one
    /// arrow while the other is up, or keeping one arrow held while the
    /// other is released.
    pub open spec fn spec_from_keyboard(keys: KeyboardState) -> Option<Orientation> {
        if keys.left.just_pressed && !keys.right.pressed {
            Some(Orientation::Left)
        } else if keys.right.just_pressed && !keys.left.pressed {
            Some(Orientation::Right)
        } else if keys.left.pressed && keys.right.just_released {
            Some(Orientation::Left)
        } else if keys.right.pressed && keys.left.just_released {
            Some(Orientation::Right)
        } else {
            None
        }
    }

    /// The facing the pad requests, if deflected or held either way.
    pub open spec fn spec_from_gamepad(pad: GamepadState) -> Option<Orientation> {
        if pad.left_stick_x > STICK_DEADZONE || pad.dpad_right.pressed {
            Some(Orientation::Right)
        } else if pad.left_stick_x < -STICK_DEADZONE || pad.dpad_left.pressed {
            Some(Orientation::Left)
        } else {
            None
        }
    }

    /// The facing change of whichever device is active.
    pub open spec fn spec_from_input(input: PlayerInput) -> Option<Orientation> {
        match input {
            PlayerInput::Keyboard { keys } => Orientation::spec_from_keyboard(keys),
            PlayerInput::Gamepad { pad } => Orientation::spec_from_gamepad(pad),
        }
    }

    /// The facing implied by an unambiguous horizontal direction set.
    pub open spec fn spec_from_movements(movements: Movements) -> Option<Orientation> {
        if movements.left && !movements.right {
            Some(Orientation::Left)
        } else if movements.right && !movements.left {
            Some(Orientation::Right)
        } else {
            None
        }
    }

    /// Whether the sprite is mirrored horizontally for this facing.
    pub open spec fn spec_flip_x(self) -> bool {
        match self {
            Orientation::Right => false,
            Orientation::Left => true,
        }
    }

    pub fn from_keyboard(keys: &KeyboardState) -> (o: Option<Orientation>)
        ensures
            o == Orientation::spec_from_keyboard(*keys),
    {
        if keys.left.just_pressed && !keys.right.pressed {
            Some(Orientation::Left)
        } else if keys.right.just_pressed && !keys.left.pressed {
            Some(Orientation::Right)
        } else if keys.left.pressed && keys.right.just_released {
            Some(Orientation::Left)
        } else if keys.right.pressed && keys.left.just_released {
            Some(Orientation::Right)
        } else {
            None
        }
    }

    pub fn from_gamepad(pad: &GamepadState) -> (o: Option<Orientation>)
        ensures
            o == Orientation::spec_from_gamepad(*pad),
    {
        if pad.left_stick_x > STICK_DEADZONE || pad.dpad_right.pressed {
            Some(Orientation::Right)
        } else if pad.left_stick_x < -STICK_DEADZONE || pad.dpad_left.pressed {
            Some(Orientation::Left)
        } else {
            None
        }
    }

    pub fn from_input(input: &PlayerInput) -> (o: Option<Orientation>)
        ensures
            o == Orientation::spec_from_input(*input),
    {
        match input {
            PlayerInput::Keyboard { keys } => Orientation::from_keyboard(keys),
            PlayerInput::Gamepad { pad } => Orientation::from_gamepad(pad),
        }
    }

    pub fn from_movements(movements: &Movements) -> (o: Option<Orientation>)
        ensures
            o == Orientation::spec_from_movements(*movements),
    {
        if movements.contains(Moving::Left) && !movements.contains(Moving::Right) {
            Some(Orientation::Left)
        } else if movements.contains(Moving::Right) && !movements.contains(Moving::Left) {
            Some(Orientation::Right)
        } else {
            None
        }
    }

    pub fn flip_x(&self) -> (r: bool)
        ensures
            r == self.spec_flip_x(),
    {
        match self {
            Orientation::Right => false,
            Orientation::Left => true,
        }
    }
}

impl PlayerInput {
    /// Whether the jump trigger fired this tick.
    pub open spec fn spec_jump_detected(self) -> bool {
        match self {
            PlayerInput::Keyboard { keys } => keys.jump.just_pressed,
            PlayerInput::Gamepad { pad } => pad.south.just_pressed,
        }
    }

    /// Whether the dash trigger fired this tick.
    pub open spec fn spec_dash_detected(self) -> bool {
        match self {
            PlayerInput::Keyboard { keys } => keys.dash.just_pressed,
            PlayerInput::Gamepad { pad } => pad.east.just_pressed,
        }
    }

    /// Whether the attack trigger fired this tick.
    pub open spec fn spec_attack_detected(self) -> bool {
        match self {
            PlayerInput::Keyboard { keys } => keys.attack.just_pressed,
            PlayerInput::Gamepad { pad } => pad.west.just_pressed || pad.west.just_released,
        }
    }

    /// Whether any direction control is held this tick.
    pub open spec fn spec_direction_pressed(self) -> bool {
        match self {
            PlayerInput::Keyboard { keys } => {
                keys.left.pressed || keys.up.pressed || keys.down.pressed || keys.right.pressed
            },
            PlayerInput::Gamepad { pad } => {
                pad.dpad_left.pressed || pad.dpad_right.pressed || pad.left_stick_x != 0
                    || pad.left_stick_y != 0
            },
        }
    }

    /// Whether a direction control was let go this tick.  On the pad a
    /// centered stick counts as released.
    pub open spec fn spec_direction_just_released(self) -> bool {
        match self {
            PlayerInput::Keyboard { keys } => {
                keys.left.just_released || keys.up.just_released || keys.down.just_released
                    || keys.right.just_released
            },
            PlayerInput::Gamepad { pad } => {
                pad.dpad_left.just_released || pad.dpad_right.just_released || (pad.left_stick_x
                    == 0 && pad.left_stick_y == 0)
            },
        }
    }

    pub fn jump_detected(&self) -> (r: bool)
        ensures
            r == self.spec_jump_detected(),
    {
        match self {
            PlayerInput::Keyboard { keys } => keys.jump.just_pressed,
            PlayerInput::Gamepad { pad } => pad.south.just_pressed,
        }
    }

    pub fn dash_detected(&self) -> (r: bool)
        ensures
            r == self.spec_dash_detected(),
    {
        match self {
            PlayerInput::Keyboard { keys } => keys.dash.just_pressed,
            PlayerInput::Gamepad { pad } => pad.east.just_pressed,
        }
    }

    pub fn attack_detected(&self) -> (r: bool)
        ensures
            r == self.spec_attack_detected(),
    {
        match self {
            PlayerInput::Keyboard { keys } => keys.attack.just_pressed,
            PlayerInput::Gamepad { pad } => pad.west.just_pressed || pad.west.just_released,
        }
    }

    pub fn direction_pressed(&self) -> (r: bool)
        ensures
            r == self.spec_direction_pressed(),
    {
        match self {
            PlayerInput::Keyboard { keys } => {
                keys.left.pressed || keys.up.pressed || keys.down.pressed || keys.right.pressed
            },
            PlayerInput::Gamepad { pad } => {
                pad.dpad_left.pressed || pad.dpad_right.pressed || pad.left_stick_x != 0
                    || pad.left_stick_y != 0
            },
        }
    }

    pub fn direction_just_released(&self) -> (r: bool)
        ensures
            r == self.spec_direction_just_released(),
    {
        match self {
            PlayerInput::Keyboard { keys } => {
                keys.left.just_released || keys.up.just_released || keys.down.just_released
                    || keys.right.just_released
            },
            PlayerInput::Gamepad { pad } => {
                pad.dpad_left.just_released || pad.dpad_right.just_released || (pad.left_stick_x
                    == 0 && pad.left_stick_y == 0)
            },
        }
    }
}

/// A connection-level gamepad event, as decoded by the platform layer.
#[derive(Clone, Copy, Debug, PartialEq, Eq, Structural)]
pub enum GamepadEventKind {
    Connected,
    Disconnected,
    Other,
}

/// The device selection after folding one connection event into `k`.
pub open spec fn spec_apply_gamepad_event(k: InputKind, ev: GamepadEventKind) -> InputKind {
    match ev {
        GamepadEventKind::Connected => InputKind::Gamepad,
        GamepadEventKind::Disconnected => InputKind::Keyboard,
        GamepadEventKind::Other => k,
    }
}

/// The device selection after folding a whole tick's connection events.
pub open spec fn spec_apply_gamepad_events(k: InputKind, evs: Seq<GamepadEventKind>) -> InputKind
    decreases evs.len(),
{
    if evs.len() == 0 {
        k
    } else {
        spec_apply_gamepad_event(spec_apply_gamepad_events(k, evs.drop_last()), evs.last())
    }
}

/// Switches the active device on pad connection and disconnection events,
/// in the order they arrived.
pub fn gamepad_connection_events(input_kind: &mut InputKind, events: &Vec<GamepadEventKind>)
    ensures
        *final(input_kind) == spec_apply_gamepad_events(*old(input_kind), events@),
{
    let mut i: usize = 0;
    while i < events.len()
        invariant
            i <= events@.len(),
            *input_kind == spec_apply_gamepad_events(*old(input_kind), events@.take(i as int)),
        decreases events@.len() - i,
    {
        match events[i] {
            GamepadEventKind::Connected => {
                *input_kind = InputKind::Gamepad;
            },
            GamepadEventKind::Disconnected => {
                *input_kind = InputKind::Keyboard;
            },
            GamepadEventKind::Other => {},
        }
        proof {
            assert(events@.take(i + 1).drop_last() =~= events@.take(i as int));
            assert(events@.take(i + 1).last() == events@[i as int]);
        }
        i = i + 1;
    }
    proof {
        assert(events@.take(events@.len() as int) =~= events@);
    }
}


/// The state-change request the input pass posts for the player `u` under
/// `input`, if any.  Triggers are considered in a fixed priority — jump,
/// dash, direction held, direction released, attack.  Jump, dash and
/// attack are legal only from `Stand` and `Move` (dash also needs its
/// cooldown elapsed); an illegal trigger posts no state change, though a
/// held direction still turns the actor in the locked states.
pub open spec fn spec_handle_input_event(input: PlayerInput, u: Unit) -> Option<UnitChanged> {
    let no = Orientation::spec_from_input(input);
    if input.spec_jump_detected() {
        if u.state == UnitState::Stand || u.state == UnitState::Move {
            Some(UnitChanged {
                unit: u.id,
                new_state: Some(UnitState::Jump),
                new_condition: None,
                new_orientation: no,
            })
        } else {
            None
        }
    } else if input.spec_dash_detected() {
        if (u.state == UnitState::Stand || u.state == UnitState::Move)
            && u.dash_cooldown.0.spec_finished() {
            Some(UnitChanged {
                unit: u.id,
                new_state: Some(UnitState::Dash),
                new_condition: None,
                new_orientation: no,
            })
        } else {
            None
        }
    } else if input.spec_direction_pressed() && !input.spec_attack_detected() {
        match u.state {
            UnitState::Attack | UnitState::Wound | UnitState::Die | UnitState::Dash => Some(
                UnitChanged {
                    unit: u.id,
                    new_state: None,
                    new_condition: None,
                    new_orientation: Orientation::spec_from_movements(
                        Movements::spec_from_input(input),
                    ),
                },
            ),
            UnitState::Move | UnitState::Jump | UnitState::Fall => Some(UnitChanged {
                unit: u.id,
                new_state: None,
                new_condition: None,
                new_orientation: Orientation::spec_from_movements(
                    Movements::spec_from_input(input),
                ),
            }),
            UnitState::Stand => Some(UnitChanged {
                unit: u.id,
                new_state: Some(UnitState::Move),
                new_condition: None,
                new_orientation: no,
            }),
        }
    } else if input.spec_direction_just_released() && !input.spec_attack_detected() {
        if u.state == UnitState::Move {
            Some(UnitChanged {
                unit: u.id,
                new_state: Some(UnitState::Stand),
                new_condition: None,
                new_orientation: no,
            })
        } else {
            None
        }
    } else if input.spec_attack_detected() {
        if u.state == UnitState::Stand || u.state == UnitState::Move {
            Some(UnitChanged {
                unit: u.id,
                new_state: Some(UnitState::Attack),
                new_condition: None,
                new_orientation: no,
            })
        } else {
            None
        }
    } else {
        None
    }
}

/// The movement set the input pass writes onto the player, or `None` to
/// leave it as it stands: a dash synthesizes the facing direction, a held
/// direction writes the device's direction set.
pub open spec fn spec_handle_input_movements(input: PlayerInput, u: Unit) -> Option<Movements> {
    if input.spec_jump_detected() {
        None
    } else if input.spec_dash_detected() {
        if (u.state == UnitState::Stand || u.state == UnitState::Move)
            && u.dash_cooldown.0.spec_finished() {
            Some(Movements::spec_from_orientation(u.orientation))
        } else {
            None
        }
    } else if input.spec_direction_pressed() && !input.spec_attack_detected() {
        match u.state {
            UnitState::Attack | UnitState::Wound | UnitState::Die | UnitState::Dash => None,
            UnitState::Move | UnitState::Jump | UnitState::Fall | UnitState::Stand => Some(
                Movements::spec_from_input(input),
            ),
        }
    } else {
        None
    }
}

/// The input pass: reads the decoded device state, writes the player's
/// movement set where a legal trigger asks for it, and posts at most one
/// request to the event bus.  A trigger that is not legal in the player's
/// current state is silently dropped; a held direction in a locked state
/// still posts the facing change, so the actor turns without moving.
pub fn handle_input(input: &PlayerInput, player: &mut Unit, ev_unit_changed: &mut Vec<UnitChanged>)
    ensures
        *final(player) == (Unit {
            movements: (match spec_handle_input_movements(*input, *old(player)) {
                Some(m) => Some(m),
                None => old(player).movements,
            }),
            ..*old(player)
        }),
        final(ev_unit_changed)@ == old(ev_unit_changed)@ + opt_to_seq(
            spec_handle_input_event(*input, *old(player)),
        ),
{
    let new_orientation = Orientation::from_input(input);
    if input.jump_detected() {
        match player.state {
            UnitState::Stand | UnitState::Move => {},
            _ => {
                return ;
            },
        }
        ev_unit_changed.push(
            UnitChanged::entity(player.id).new_state(UnitState::Jump).new_orientation(
                new_orientation,
            ),
        );
    } else if input.dash_detected() {
        let dash_legal = match player.state {
            UnitState::Stand | UnitState::Move => player.dash_cooldown.finished(),
            _ => false,
        };
        if !dash_legal {
            return ;
        }
        player.movements = Some(Movements::from_orientation(player.orientation));
        ev_unit_changed.push(
            UnitChanged::entity(player.id).new_state(UnitState::Dash).new_orientation(
                new_orientation,
            ),
        );
    } else if input.direction_pressed() && !input.attack_detected() {
        match player.state {
            UnitState::Attack | UnitState::Wound | UnitState::Die | UnitState::Dash => {
                let movements = Movements::from_input(input);
                let from_moves = Orientation::from_movements(&movements);
                ev_unit_changed.push(
                    UnitChanged::entity(player.id).new_orientation(from_moves),
                );
            },
            UnitState::Move | UnitState::Jump | UnitState::Fall => {
                let movements = Movements::from_input(input);
                let from_moves = Orientation::from_movements(&movements);
                player.movements = Some(movements);
                ev_unit_changed.push(
                    UnitChanged::entity(player.id).new_orientation(from_moves),
                );
            },
            UnitState::Stand => {
                player.movements = Some(Movements::from_input(input));
                ev_unit_changed.push(
                    UnitChanged::entity(player.id).new_state(UnitState::Move).new_orientation(
                        new_orientation,
                    ),
                );
            },
        }
    } else if input.direction_just_released() && !input.attack_detected() {
        match player.state {
            UnitState::Move => {},
            _ => {
                return ;
            },
        }
        ev_unit_changed.push(
            UnitChanged::entity(player.id).new_state(UnitState::Stand).new_orientation(
                new_orientation,
            ),
        );
    } else if input.attack_detected() {
        match player.state {
            UnitState::Stand | UnitState::Move => {},
            _ => {
                return ;
            },
        }
        ev_unit_changed.push(
            UnitChanged::entity(player.id).new_state(UnitState::Attack).new_orientation(
                new_orientation,
            ),
        );
    }
}


/// Law — transition legality.  A trigger whose transition is not listed
/// for the player's current state changes no state: jump, dash and attack
/// are dropped outright outside `Stand`/`Move` (dash also without an
/// elapsed cooldown), a direction release outside `Move` is dropped, and
/// a held direction in a locked state posts only a facing change.
/// Consolidating what the input pass posted then leaves the actor's state
/// exactly as it was.
pub proof fn lemma_transition_legality(input: PlayerInput, u: Unit)
    ensures
        input.spec_jump_detected() && u.state != UnitState::Stand && u.state != UnitState::Move
            ==> spec_handle_input_event(input, u) is None && spec_handle_input_movements(input, u)
            is None,
        !input.spec_jump_detected() && input.spec_dash_detected() && !((u.state == UnitState::Stand
            || u.state == UnitState::Move) && u.dash_cooldown.0.spec_finished())
            ==> spec_handle_input_event(input, u) is None && spec_handle_input_movements(input, u)
            is None,
        !input.spec_jump_detected() && !input.spec_dash_detected()
            && input.spec_direction_pressed() && !input.spec_attack_detected() && (u.state
            == UnitState::Attack || u.state == UnitState::Wound || u.state == UnitState::Die
            || u.state == UnitState::Dash) ==> spec_handle_input_event(input, u)->Some_0.new_state
            is None && spec_handle_input_event(input, u)->Some_0.new_condition is None
            && spec_handle_input_movements(input, u) is None,
        !input.spec_jump_detected() && !input.spec_dash_detected() && !(
        input.spec_direction_pressed() && !input.spec_attack_detected())
            && input.spec_direction_just_released() && !input.spec_attack_detected() && u.state
            != UnitState::Move ==> spec_handle_input_event(input, u) is None,
        !input.spec_jump_detected() && !input.spec_dash_detected() && !(
        input.spec_direction_pressed() && !input.spec_attack_detected()) && !(
        input.spec_direction_just_released() && !input.spec_attack_detected())
            && input.spec_attack_detected() && u.state != UnitState::Stand && u.state
            != UnitState::Move ==> spec_handle_input_event(input, u) is None,
        spec_handle_input_event(input, u) is None ==> crate::player::spec_apply_unit_events(
            u,
            opt_to_seq(spec_handle_input_event(input, u)),
        ) == u,
        (match spec_handle_input_event(input, u) {
            Some(e) => e.new_state is None && e.new_condition is None,
            None => true,
        }) ==> crate::player::spec_apply_unit_events(
            u,
            opt_to_seq(spec_handle_input_event(input, u)),
        ).state == u.state,
{
    match spec_handle_input_event(input, u) {
        Some(e) => {
            let evs = opt_to_seq(spec_handle_input_event(input, u));
            assert(evs =~= seq![e]);
            assert(evs.drop_last() =~= Seq::<UnitChanged>::empty());
            assert(evs.last() == e);
            assert(crate::player::spec_apply_unit_events(u, Seq::<UnitChanged>::empty()) == u);
            assert(crate::player::spec_apply_unit_events(u, evs)
                == crate::player::spec_apply_unit_changed(
                crate::player::spec_apply_unit_events(u, evs.drop_last()),
                e,
            ));
        },
        None => {},
    }
}

} // verus!
