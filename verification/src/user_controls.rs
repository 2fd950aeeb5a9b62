//! The input timing controller: it turns key edges and ticks into engine
//! calls, with gravity by level, soft drop, lock delay and the auto-repeat
//! of horizontal moves.

use crate::bag::BagView;
use crate::rules::GameView;
use crate::tetris_engine::Game;
use vstd::prelude::*;

verus! {

/// What a player can ask for.
#[allow(non_camel_case_types)]
#[derive(Copy, Clone, PartialEq, Eq, Structural, Debug, Hash)]
pub enum Action {
    /// Nothing: what a key without a binding stands for.
    NONE,
    /// Move left.
    LEFT,
    /// Move right.
    RIGHT,
    /// Soft drop.
    DOWN,
    /// Turn clockwise.
    ROTATE_C,
    /// Turn counter-clockwise.
    ROTATE_A,
    /// Turn by a half turn.
    ROTATE_H,
    /// Hard drop.
    DROP,
    /// Set the active piece aside.
    HOLD,
}

/// The horizontal direction that is held down.
#[allow(non_camel_case_types)]
#[derive(Copy, Clone, PartialEq, Eq, Structural, Debug)]
pub enum Direction {
    /// Left is held.
    LEFT,
    /// Right is held.
    RIGHT,
    /// Neither is held.
    NONE,
}

impl Action {
    /// The place of an action in the order of its declaration.
    pub open spec fn ordinal(self) -> int {
        match self {
            Action::NONE => 0,
            Action::LEFT => 1,
            Action::RIGHT => 2,
            Action::DOWN => 3,
            Action::ROTATE_C => 4,
            Action::ROTATE_A => 5,
            Action::ROTATE_H => 6,
            Action::DROP => 7,
            Action::HOLD => 8,
        }
    }

    /// The quarter turns clockwise that a rotate action asks for.
    pub open spec fn turns(self) -> int {
        match self {
            Action::ROTATE_C => 1,
            Action::ROTATE_A => 3,
            _ => 2,
        }
    }

    /// The horizontal direction of a move action.
    pub open spec fn direction(self) -> Direction {
        if self == Action::LEFT {
            Direction::LEFT
        } else {
            Direction::RIGHT
        }
    }

    /// The place of an action in the order of its declaration.
    fn index(self) -> (i: usize)
        ensures
            i == self.ordinal(),
            i < 9,
    {
        match self {
            Action::NONE => 0,
            Action::LEFT => 1,
            Action::RIGHT => 2,
            Action::DOWN => 3,
            Action::ROTATE_C => 4,
            Action::ROTATE_A => 5,
            Action::ROTATE_H => 6,
            Action::DROP => 7,
            Action::HOLD => 8,
        }
    }
}

impl Direction {
    /// The column step of a direction: -1 to the left, 1 to the right.
    pub open spec fn step(self) -> int {
        if self == Direction::LEFT {
            -1
        } else {
            1
        }
    }
}

/// For each action, whether it is held down. An action that was never set
/// has no entry.
pub struct ActionMap {
    /// The entry of each action, by its ordinal.
    pub slots: [Option<bool>; 9],
}

impl View for ActionMap {
    type V = Map<Action, bool>;

    open spec fn view(&self) -> Map<Action, bool> {
        Map::new(
            |a: Action| self.slots[a.ordinal()] is Some,
            |a: Action| self.slots[a.ordinal()]->0,
        )
    }
}

/// The entries of a fresh session: each of the eight actions of the game is
/// recorded as released, and `NONE` has no entry.
pub open spec fn all_released(pressed: Map<Action, bool>) -> bool {
    forall|a: Action| #[trigger]
        pressed.contains_key(a) == (a != Action::NONE) && (a != Action::NONE ==> !pressed[a])
}

impl ActionMap {
    /// The map in which each of the eight actions of the game is recorded as
    /// released.
    pub fn new() -> (map: ActionMap)
        ensures
            all_released(map@),
    {
        ActionMap {
            slots: [
                None,
                Some(false),
                Some(false),
                Some(false),
                Some(false),
                Some(false),
                Some(false),
                Some(false),
                Some(false),
            ],
        }
    }

    /// Whether `key` is held down, if it has an entry.
    pub fn get(&self, key: &Action) -> (value: Option<&bool>)
        ensures
            match value {
                Some(held) => self@.contains_key(*key) && *held == self@[*key],
                None => !self@.contains_key(*key),
            },
    {
        match &self.slots[key.index()] {
            Some(held) => Some(held),
            None => None,
        }
    }

    /// Records whether `key` is held down.
    pub fn set(&mut self, key: Action, value: bool)
        ensures
            final(self)@ == old(self)@.insert(key, value),
    {
        self.slots[key.index()] = Some(value);
        assert(self@ =~= old(self)@.insert(key, value)) by {
            assert forall|a: Action| a != key implies a.ordinal() != key.ordinal() by {}
        }
    }
}

/// The timing configuration, in ticks.
#[derive(Copy, Clone, Debug)]
pub struct Handling {
    /// Ticks a direction is held before the auto-repeat starts.
    pub das_delay: u32,
    /// Ticks between two auto-repeated moves.
    pub arr: u32,
    /// Factor by which a soft drop shortens the gravity interval.
    pub sdf: u32,
    /// Ticks a piece may rest on the ground before it is locked.
    pub lock_delay: u32,
}

impl Handling {
    /// The default timing: auto-repeat after 10 ticks and then every tick,
    /// soft drop 30 times as fast, lock after 60 ticks on the ground.
    pub fn new() -> (handling: Handling)
        ensures
            handling == (Handling { das_delay: 10, arr: 1, sdf: 30, lock_delay: 60 }),
    {
        Handling { das_delay: 10, arr: 1, lock_delay: 60, sdf: 30 }
    }
}

/// Ticks between two gravity steps: 48 at level 0 and 5 fewer with each
/// level, at least 1; divided by the soft drop factor while a soft drop is
/// held, again at least 1.
pub open spec fn gravity_interval(level: int, dropping: bool, sdf: int) -> int {
    let by_level = if 48 - level * 5 > 1 {
        48 - level * 5
    } else {
        1
    };
    if dropping {
        if by_level / sdf > 1 {
            by_level / sdf
        } else {
            1
        }
    } else {
        by_level
    }
}

/// The state of the controller.
#[verifier::ext_equal]
pub struct ControlView {
    /// For each action that has an entry, whether it is held down.
    pub pressed: Map<Action, bool>,
    /// The timing configuration.
    pub handling: Handling,
    /// Ticks since the session began.
    pub frame: int,
    /// The horizontal direction that is held down.
    pub direction: Direction,
    /// Whether soft drop is held down.
    pub dropping: bool,
    /// The tick of the last gravity step.
    pub gravity_frame: int,
    /// Ticks since the last horizontal key edge.
    pub hold: int,
    /// The tick of the last horizontal move or key edge.
    pub arr: int,
    /// Ticks the piece has rested on the ground.
    pub lock_delay: int,
    /// Whether the last gravity step found the piece on the ground.
    pub touching: bool,
}

impl ControlView {
    /// What holds of every controller: no timer runs ahead of the tick
    /// counter, the soft drop factor is not zero, and the lock timer stays
    /// under its limit.
    pub open spec fn wf(self) -> bool {
        &&& 0 <= self.gravity_frame <= self.frame
        &&& 0 <= self.arr <= self.frame
        &&& 0 <= self.hold <= self.frame
        &&& self.handling.sdf > 0
        &&& 0 <= self.lock_delay
        &&& (self.lock_delay == 0 || self.lock_delay < self.handling.lock_delay)
    }

    /// Whether this tick locks the piece: it rests on the ground and the
    /// lock timer reaches its limit.
    pub open spec fn lock_expires(self) -> bool {
        self.touching && self.lock_delay + 1 >= self.handling.lock_delay
    }

    /// First part of a tick: the counters advance, and the piece is locked
    /// if its time on the ground is up. `bag` is the bag after the draw.
    pub open spec fn after_lock(self, game: GameView, bag: BagView) -> (ControlView, GameView) {
        let counted = ControlView { frame: self.frame + 1, hold: self.hold + 1, ..self };
        if !self.touching {
            (counted, game)
        } else if self.lock_expires() {
            (ControlView { lock_delay: 0, ..counted }, game.placed(bag))
        } else {
            (ControlView { lock_delay: self.lock_delay + 1, ..counted }, game)
        }
    }

    /// Whether a gravity step is due.
    pub open spec fn gravity_due(self, game: GameView) -> bool {
        self.frame - self.gravity_frame >= gravity_interval(
            game.level(),
            self.dropping,
            self.handling.sdf as int,
        )
    }

    /// Second part of a tick: when a gravity step is due the piece moves
    /// down, which takes it off the ground, or fails to, which puts it on
    /// the ground.
    pub open spec fn after_gravity(self, game: GameView) -> (ControlView, GameView) {
        if !self.gravity_due(game) {
            (self, game)
        } else if game.can_drop() {
            (
                ControlView {
                    gravity_frame: self.frame,
                    lock_delay: 0,
                    touching: false,
                    ..self
                },
                game.dropped(),
            )
        } else {
            (ControlView { gravity_frame: self.frame, touching: true, ..self }, game)
        }
    }

    /// Whether an auto-repeated move is due.
    pub open spec fn repeat_due(self) -> bool {
        &&& self.direction != Direction::NONE
        &&& self.hold >= self.handling.das_delay
        &&& self.frame - self.arr >= self.handling.arr
    }

    /// Third part of a tick: when a direction has been held long enough the
    /// piece moves one more column.
    pub open spec fn after_repeat(self, game: GameView) -> (ControlView, GameView) {
        if self.repeat_due() {
            (ControlView { arr: self.frame, ..self }, game.moved(self.direction.step()))
        } else {
            (self, game)
        }
    }

    /// Controller and game after one tick. `bag` is the bag after the draw,
    /// where the tick locks the piece.
    pub open spec fn ticked(self, game: GameView, bag: BagView) -> (ControlView, GameView) {
        let locked = self.after_lock(game, bag);
        let fallen = locked.0.after_gravity(locked.1);
        fallen.0.after_repeat(fallen.1)
    }

    /// Whether the key edge draws a piece from the bag.
    pub open spec fn edge_draws(game: GameView, action: Action, pressed: bool) -> bool {
        pressed && (action == Action::DROP || (action == Action::HOLD && game.hold_draws()))
    }

    /// Controller and game after `action` was pressed. `bag` is the bag
    /// after the draw, where the action draws.
    pub open spec fn pressed_down(self, game: GameView, action: Action, bag: BagView) -> (
        ControlView,
        GameView,
    ) {
        let noted = ControlView { pressed: self.pressed.insert(action, true), ..self };
        match action {
            Action::LEFT | Action::RIGHT => {
                if self.direction != action.direction() {
                    (
                        ControlView {
                            hold: 0,
                            arr: self.frame,
                            direction: action.direction(),
                            ..noted
                        },
                        game.moved(action.direction().step()),
                    )
                } else {
                    (noted, game)
                }
            },
            Action::ROTATE_C | Action::ROTATE_A | Action::ROTATE_H => {
                (noted, game.rotated(action.turns()))
            },
            Action::DROP => (noted, game.hard_dropped(bag)),
            Action::DOWN => (ControlView { dropping: true, ..noted }, game),
            Action::HOLD => {
                if game.switched {
                    (noted, game)
                } else {
                    (ControlView { touching: false, lock_delay: 0, ..noted }, game.held(bag))
                }
            },
            Action::NONE => (noted, game),
        }
    }

    /// The controller after `action` was released. A release leaves the game
    /// as it is.
    pub open spec fn released(self, action: Action) -> ControlView {
        let noted = ControlView { pressed: self.pressed.insert(action, false), ..self };
        match action {
            Action::LEFT | Action::RIGHT => ControlView {
                hold: 0,
                arr: self.frame,
                direction: Direction::NONE,
                ..noted
            },
            Action::DOWN => ControlView { dropping: false, ..noted },
            _ => noted,
        }
    }

    /// Controller and game after a key edge.
    pub open spec fn acted(
        self,
        game: GameView,
        action: Action,
        pressed: bool,
        bag: BagView,
    ) -> (ControlView, GameView) {
        if pressed {
            self.pressed_down(game, action, bag)
        } else {
            (self.released(action), game)
        }
    }

    /// Whether the engine can carry out what a key edge asks for within its
    /// number ranges: a hard drop must leave score and row count within
    /// their counters.
    pub open spec fn edge_in_range(game: GameView, action: Action, pressed: bool) -> bool {
        pressed && action == Action::DROP ==> game.landed().place_in_range()
    }
}

/// The controller of one game session.
pub struct UserControl {
    /// For each action, whether it is held down.
    pub action_map: ActionMap,
    /// The timing configuration.
    pub handling: Handling,
    /// Ticks since the session began.
    pub frame: u32,
    /// The horizontal direction that is held down.
    pub direction: Direction,
    /// Whether soft drop is held down.
    pub dropping: bool,
    /// The tick of the last gravity step.
    pub gravity_frame: u32,
    /// Ticks since the last horizontal key edge.
    pub hold: u32,
    /// The tick of the last horizontal move or key edge.
    pub arr: u32,
    /// Ticks the piece has rested on the ground.
    pub lock_delay: u32,
    /// Whether the last gravity step found the piece on the ground.
    pub touching: bool,
}

impl View for UserControl {
    type V = ControlView;

    open spec fn view(&self) -> ControlView {
        ControlView {
            pressed: self.action_map@,
            handling: self.handling,
            frame: self.frame as int,
            direction: self.direction,
            dropping: self.dropping,
            gravity_frame: self.gravity_frame as int,
            hold: self.hold as int,
            arr: self.arr as int,
            lock_delay: self.lock_delay as int,
            touching: self.touching,
        }
    }
}

impl UserControl {
    /// What holds of every controller between two calls.
    pub open spec fn wf(&self) -> bool {
        self@.wf()
    }

    /// The controller of a fresh session: nothing held, all timers at zero,
    /// the default timing.
    pub fn new() -> (control: UserControl)
        ensures
            control.wf(),
            control@.handling == (Handling { das_delay: 10, arr: 1, sdf: 30, lock_delay: 60 }),
            control@.frame == 0,
            control@.direction == Direction::NONE,
            !control@.dropping,
            control@.gravity_frame == 0,
            control@.hold == 0,
            control@.arr == 0,
            control@.lock_delay == 0,
            !control@.touching,
            all_released(control@.pressed),
    {
        UserControl {
            action_map: ActionMap::new(),
            handling: Handling::new(),
            frame: 0,
            dropping: false,
            gravity_frame: 0,
            hold: 0,
            direction: Direction::NONE,
            arr: 0,
            lock_delay: 0,
            touching: false,
        }
    }

    /// Handles a key edge: `pressed` tells a press from a release. A press
    /// of a direction other than the one held moves the piece at once and
    /// restarts the auto-repeat; a rotation, a hard drop and a hold are
    /// carried out once; a soft drop only raises its flag. A release of a
    /// direction ends the auto-repeat, a release of the soft drop lowers its
    /// flag. Returns whether a hard drop locked the piece above the visible
    /// field, which ends the game.
    pub fn action(&mut self, game: &mut Game, action: Action, pressed: bool) -> (lock_out: bool)
        requires
            old(self).wf(),
            old(game).wf(),
            ControlView::edge_in_range(old(game)@, action, pressed),
        ensures
            final(self).wf(),
            final(game).wf(),
            (final(self)@, final(game)@) == old(self)@.acted(
                old(game)@,
                action,
                pressed,
                final(game)@.bag,
            ),
            if ControlView::edge_draws(old(game)@, action, pressed) {
                old(game)@.bag.draws_to(final(game)@.bag)
            } else {
                final(game)@.bag == old(game)@.bag
            },
            lock_out == (pressed && action == Action::DROP && old(game)@.landed().locks_out()),
    {
        let mut lock_out = false;
        if pressed {
            self.action_map.set(action, true);
            match action {
                Action::LEFT | Action::RIGHT => {
                    let direction = if action == Action::LEFT {
                        Direction::LEFT
                    } else {
                        Direction::RIGHT
                    };
                    if self.direction != direction {
                        self.hold = 0;
                        self.arr = self.frame;
                        self.direction = direction;
                        game.move_piece(
                            if Direction::LEFT == direction {
                                -1
                            } else {
                                1
                            },
                        );
                    }
                },
                Action::ROTATE_C | Action::ROTATE_A | Action::ROTATE_H => {
                    game.rotate(
                        if action == Action::ROTATE_C {
                            1
                        } else if action == Action::ROTATE_A {
                            3
                        } else {
                            2
                        },
                    );
                },
                Action::DROP => {
                    lock_out = game.hard_drop();
                },
                Action::DOWN => {
                    self.dropping = true;
                },
                Action::HOLD => {
                    if game.hold_piece() {
                        self.touching = false;
                        self.lock_delay = 0;
                    }
                },
                _ => (),
            }
        } else {
            self.action_map.set(action, false);
            match action {
                Action::LEFT | Action::RIGHT => {
                    self.hold = 0;
                    self.arr = self.frame;
                    self.direction = Direction::NONE;
                },
                Action::DOWN => {
                    self.dropping = false;
                },
                _ => (),
            }
        }
        lock_out
    }

    /// Advances the session by one tick: the counters advance; a piece that
    /// has rested on the ground for the lock delay is locked; when the
    /// gravity interval has passed the piece moves down a row or is found on
    /// the ground; and a direction that has been held long enough moves the
    /// piece once more. Returns whether the tick locked the piece above the
    /// visible field, which ends the game.
    pub fn update(&mut self, game: &mut Game) -> (lock_out: bool)
        requires
            old(self).wf(),
            old(game).wf(),
            old(self)@.frame < u32::MAX,
            old(self)@.lock_expires() ==> old(game)@.place_in_range(),
        ensures
            final(self).wf(),
            final(game).wf(),
            (final(self)@, final(game)@) == old(self)@.ticked(old(game)@, final(game)@.bag),
            if old(self)@.lock_expires() {
                old(game)@.bag.draws_to(final(game)@.bag)
            } else {
                final(game)@.bag == old(game)@.bag
            },
            lock_out == (old(self)@.lock_expires() && old(game)@.locks_out()),
    {
        let mut lock_out = false;
        self.frame += 1;
        self.hold += 1;
        if self.touching {
            self.lock_delay += 1;
            if self.lock_delay >= self.handling.lock_delay {
                lock_out = game.place();
                self.lock_delay = 0;
            }
        }
        let ghost locked = (self@, game@);
        assert(locked == old(self)@.after_lock(old(game)@, game@.bag));

        let level = game.get_level();
        let by_level: u32 = if level >= 10 {
            1
        } else {
            48 - level * 5
        };
        let gravity_frame: u32 = if self.dropping {
            if by_level / self.handling.sdf > 1 {
                by_level / self.handling.sdf
            } else {
                1
            }
        } else {
            by_level
        };
        if self.frame - self.gravity_frame >= gravity_frame {
            self.gravity_frame = self.frame;
            if game.drop() {
                self.lock_delay = 0;
                self.touching = false;
            } else {
                self.touching = true
            }
        }
        let ghost fallen = (self@, game@);
        assert(fallen == locked.0.after_gravity(locked.1));

        match self.direction {
            Direction::LEFT | Direction::RIGHT => {
                if self.hold >= self.handling.das_delay {
                    if self.frame - self.arr >= self.handling.arr {
                        game.move_piece(
                            if self.direction == Direction::LEFT {
                                -1
                            } else {
                                1
                            },
                        );
                        self.arr = self.frame;
                    }
                }
            },
            _ => (),
        }
        assert((self@, game@) == fallen.0.after_repeat(fallen.1));
        lock_out
    }
}

} // verus!
