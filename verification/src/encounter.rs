//! What happens when the avatar comes close to a spawned prop: the
//! proximity scan over prop positions, the consequences of touching a
//! person or a checkpoint, and the points counter.

use vstd::prelude::*;
use crate::geom::{Vec3Fix, dist_sq, COORD_BOUND};
use crate::state::GameState;

verus! {

/// How close the avatar must come to a prop to touch it, in tenths of a
/// world unit.
pub const TOUCH_RADIUS_TENTHS: i64 = 200;

/// The kinds of prop the avatar can run into.
#[derive(Clone, Copy, Debug, PartialEq, Eq, Structural)]
pub enum Prop {
    /// A person wandering the island; touching one interrupts play.
    Person,
    /// A checkpoint marker; touching one scores a point.
    Checkpoint,
}

/// Everything touching a prop asks the surrounding program to do.
#[derive(Clone, Copy, Debug, PartialEq, Eq, Structural)]
pub struct TouchOutcome {
    /// The touched prop leaves the world.
    pub despawn_prop: bool,
    /// The collision sound plays.
    pub play_sound: bool,
    /// The short pause countdown starts over.
    pub reset_pause_timer: bool,
    /// Switch the top-level state, if any.
    pub next_game: Option<GameState>,
    /// One point is scored.
    pub award_point: bool,
    /// A new prop of this kind appears at a random site.
    pub spawn_next: Option<Prop>,
}

/// The rule for touching a prop: a person halts play for a moment and a
/// checkpoint takes its place; a checkpoint scores a point and a new
/// person takes its place. Either way the prop leaves and the collision
/// sound plays.
pub fn touch_outcome(touched: Prop) -> (o: TouchOutcome)
    ensures
        touched == Prop::Person ==> o == (TouchOutcome {
            despawn_prop: true,
            play_sound: true,
            reset_pause_timer: true,
            next_game: Some(GameState::Pause),
            award_point: false,
            spawn_next: Some(Prop::Checkpoint),
        }),
        touched == Prop::Checkpoint ==> o == (TouchOutcome {
            despawn_prop: true,
            play_sound: true,
            reset_pause_timer: false,
            next_game: None,
            award_point: true,
            spawn_next: Some(Prop::Person),
        }),
{
    match touched {
        Prop::Person => TouchOutcome {
            despawn_prop: true,
            play_sound: true,
            reset_pause_timer: true,
            next_game: Some(GameState::Pause),
            award_point: false,
            spawn_next: Some(Prop::Checkpoint),
        },
        Prop::Checkpoint => TouchOutcome {
            despawn_prop: true,
            play_sound: true,
            reset_pause_timer: false,
            next_game: None,
            award_point: true,
            spawn_next: Some(Prop::Person),
        },
    }
}

/// Scans prop positions in order and returns the index of the first one
/// the avatar stands within `radius` of, or `None` if it is clear of all
/// of them.
pub fn first_within(player: Vec3Fix, props: &Vec<Vec3Fix>, radius: i64) -> (r: Option<usize>)
    requires
        player.in_bounds(),
        forall|j: int| 0 <= j < props@.len() ==> props@[j].in_bounds(),
        0 <= radius <= COORD_BOUND,
    ensures
        match r {
            Some(i) => {
                &&& i < props@.len()
                &&& dist_sq(player, props@[i as int]) < radius * radius
                &&& forall|j: int| 0 <= j < i ==> dist_sq(player, props@[j]) >= radius * radius
            },
            None => forall|j: int|
                0 <= j < props@.len() ==> dist_sq(player, props@[j]) >= radius * radius,
        },
{
    let mut i: usize = 0;
    while i < props.len()
        invariant
            player.in_bounds(),
            forall|j: int| 0 <= j < props@.len() ==> props@[j].in_bounds(),
            0 <= radius <= COORD_BOUND,
            i <= props@.len(),
            forall|j: int| 0 <= j < i ==> dist_sq(player, props@[j]) >= radius * radius,
        decreases props@.len() - i,
    {
        if crate::geom::within_radius(player, props[i], radius) {
            return Some(i);
        }
        i = i + 1;
    }
    None
}

/// How many checkpoints the player has reached this round.
#[derive(Clone, Copy, Debug, PartialEq, Eq, Structural)]
pub struct PlayerPoints {
    pub count: u32,
}

impl PlayerPoints {
    /// A fresh round starts with no points.
    pub fn start() -> (p: PlayerPoints)
        ensures
            p == (PlayerPoints { count: 0 }),
    {
        PlayerPoints { count: 0 }
    }

    /// Scores one point.
    pub fn award(&mut self)
        requires
            old(self).count < u32::MAX,
        ensures
            final(self).count == old(self).count + 1,
    {
        self.count = self.count + 1;
    }
}

} // verus!
