//! Control logic for a small third-person island exploration game.
//!
//! The game itself runs on an entity-component-system engine; this crate
//! holds the part that is worth stating and proving on its own: the
//! top-level state machine (splash screen, menus, play, pause), the menu
//! button rules, the proximity checks against spawned props, the orbit
//! camera steering, the per-frame movement intent, the countdown timers
//! and the hand-authored placement tables. Positions and angles are kept
//! in fixed-point integers (tenths of a world unit, thousandths of a
//! radian) so that every rule is exact; the engine layer converts to and
//! from its own floating-point types at the boundary.

pub mod buttons;
pub mod camera;
pub mod encounter;
pub mod geom;
pub mod movement;
pub mod session;
pub mod spawn;
pub mod state;
pub mod timer;
