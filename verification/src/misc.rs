//! Directions, the capability shared by everything that moves, and the
//! arithmetic on positions.

use vstd::prelude::*;
use crate::input::{ButtonState, Key};

verus! {

/// What the creature and the ship have in common: both take movement input,
/// both turn it into a velocity of their own, and both move by it.
pub trait Moveable {
    /// Whether the own velocity keeps within the speed along both axes.
    spec fn within_speed(&self) -> bool;

    /// Records a movement key going down or coming up.
    fn handle_input(&mut self, state: &ButtonState, key: &Option<Key>);

    /// Moves by the current velocities, without asking whether the target is
    /// free.
    fn update_position(&mut self);

    /// Recomputes the own velocity from the directions currently held. The
    /// new velocity keeps within the speed, whatever the old one was.
    fn update_self_velocity(&mut self)
        ensures
            final(self).within_speed(),
    ;
}

/// A compass direction. North is up on screen, where `y` decreases.
#[derive(Clone, Copy, Debug, PartialEq, Eq, Structural)]
pub enum Direction {
    N,
    E,
    S,
    W,
}

impl Direction {
    /// The letter that names the direction.
    pub open spec fn letter(self) -> Seq<char> {
        match self {
            Direction::N => "N"@,
            Direction::S => "S"@,
            Direction::W => "W"@,
            Direction::E => "E"@,
        }
    }

    /// The direction's letter as an owned string.
    pub fn direction_to_string(&self) -> (name: String)
        ensures
            name@ == self.letter(),
    {
        match *self {
            Direction::N => "N".to_string(),
            Direction::S => "S".to_string(),
            Direction::W => "W".to_string(),
            Direction::E => "E".to_string(),
        }
    }
}

/// The value of `v` brought into the range of `i64`.
pub open spec fn saturate(v: int) -> i64 {
    if v > i64::MAX {
        i64::MAX
    } else if v < i64::MIN {
        i64::MIN
    } else {
        v as i64
    }
}

/// The sum of two coordinates, held at the nearest limit of `i64` where the
/// exact sum does not fit.
pub fn sat_add(a: i64, b: i64) -> (sum: i64)
    ensures
        sum == saturate(a + b),
{
    match a.checked_add(b) {
        Some(sum) => sum,
        None => if b > 0 {
            i64::MAX
        } else {
            i64::MIN
        },
    }
}

/// A wide number brought into the range of `i64`.
pub fn clamp_to_i64(v: i128) -> (clamped: i64)
    ensures
        clamped == saturate(v as int),
{
    if v > i64::MAX as i128 {
        i64::MAX
    } else if v < i64::MIN as i128 {
        i64::MIN
    } else {
        v as i64
    }
}

/// Whether `dir` occurs among `directions`.
pub fn has_direction(directions: &Vec<Direction>, dir: Direction) -> (found: bool)
    ensures
        found == directions@.contains(dir),
{
    let mut i: usize = 0;
    while i < directions.len()
        invariant
            i <= directions.len(),
            forall|k: int| 0 <= k < i ==> directions@[k] != dir,
        decreases directions.len() - i,
    {
        if directions[i] == dir {
            return true;
        }
        i += 1;
    }
    false
}

/// The velocity along one axis when the keys for its positive and negative
/// direction are held or not: each held key contributes the full speed, and
/// opposite keys cancel.
pub open spec fn axis_velocity(positive: bool, negative: bool, speed: u32) -> i64 {
    ((if positive { speed as int } else { 0 }) - (if negative { speed as int } else { 0 })) as i64
}

/// Executable form of [`axis_velocity`].
pub fn axis_speed(positive: bool, negative: bool, speed: u32) -> (v: i64)
    ensures
        v == axis_velocity(positive, negative, speed),
        -(speed as int) <= v <= speed as int,
{
    let s: i64 = speed as i64;
    if positive && !negative {
        s
    } else if negative && !positive {
        -s
    } else {
        0
    }
}

/// The held directions after a key event: a press adds the direction unless
/// it is already held, a release takes its first occurrence away.
pub open spec fn toggled(
    directions: Seq<Direction>,
    state: ButtonState,
    dir: Direction,
) -> Seq<Direction> {
    match state {
        ButtonState::Press => if directions.contains(dir) {
            directions
        } else {
            directions.push(dir)
        },
        ButtonState::Release => directions.remove_value(dir),
    }
}

/// Applies a key event for `dir` to the held directions.
pub fn toggle_direction(directions: &mut Vec<Direction>, state: &ButtonState, dir: Direction)
    ensures
        final(directions)@ == toggled(old(directions)@, *state, dir),
{
    let mut i: usize = 0;
    let mut at: Option<usize> = None;
    while i < directions.len()
        invariant_except_break
            at is None,
            forall|k: int| 0 <= k < i ==> directions@[k] != dir,
        invariant
            i <= directions.len(),
        ensures
            match at {
                Some(p) => p < directions.len() && directions@[p as int] == dir
                    && forall|k: int| 0 <= k < p ==> directions@[k] != dir,
                None => !directions@.contains(dir),
            },
        decreases directions.len() - i,
    {
        if directions[i] == dir {
            at = Some(i);
            break;
        }
        i += 1;
    }
    proof {
        directions@.index_of_first_ensures(dir);
    }
    match at {
        Some(p) => {
            if *state == ButtonState::Release {
                directions.remove(p);
            }
        },
        None => {
            if *state == ButtonState::Press {
                directions.push(dir);
            }
        },
    }
}

/// Held directions without repetition stay so under any key event, and a
/// released direction is then no longer held.
pub proof fn lemma_toggled_set(directions: Seq<Direction>, state: ButtonState, dir: Direction)
    requires
        directions.no_duplicates(),
    ensures
        toggled(directions, state, dir).no_duplicates(),
        forall|d: Direction|
            toggled(directions, state, dir).contains(d) <==> match state {
                ButtonState::Press => d == dir || directions.contains(d),
                ButtonState::Release => d != dir && directions.contains(d),
            },
{
    let after = toggled(directions, state, dir);
    directions.index_of_first_ensures(dir);
    match state {
        ButtonState::Press => {
            if !directions.contains(dir) {
                assert forall|d: Direction| after.contains(d) <==> (d == dir
                    || directions.contains(d)) by {
                    if after.contains(d) {
                        let k = choose|k: int| 0 <= k < after.len() && after[k] == d;
                        if k < directions.len() {
                            assert(directions[k] == d);
                        }
                    }
                    if directions.contains(d) {
                        let k = choose|k: int| 0 <= k < directions.len() && directions[k] == d;
                        assert(after[k] == d);
                    }
                    if d == dir {
                        assert(after[directions.len() as int] == d);
                    }
                }
            }
        },
        ButtonState::Release => {
            if directions.contains(dir) {
                let p = directions.index_of_first(dir).unwrap();
                assert(after == directions.remove(p));
                assert forall|d: Direction| after.contains(d) <==> (d != dir
                    && directions.contains(d)) by {
                    if after.contains(d) {
                        let k = choose|k: int| 0 <= k < after.len() && after[k] == d;
                        if k < p {
                            assert(directions[k] == d);
                        } else {
                            assert(directions[k + 1] == d);
                        }
                    }
                    if d != dir && directions.contains(d) {
                        let k = choose|k: int| 0 <= k < directions.len() && directions[k] == d;
                        if k < p {
                            assert(after[k] == d);
                        } else {
                            assert(after[k - 1] == d);
                        }
                    }
                }
            }
        },
    }
}

} // verus!
