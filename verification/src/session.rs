//! One place for everything the game remembers between frames: the
//! top-level state, the active menu screen, the points this round, and
//! the poses saved when play is interrupted. Each event handler states
//! exactly which state comes next, and all of them preserve the session
//! invariant tying the menu screen to the top-level state.

use vstd::prelude::*;
use crate::encounter::{Prop, PlayerPoints, TouchOutcome, touch_outcome};
use crate::geom::Placement;
use crate::state::{GameState, MenuState, MenuButtonAction, MenuCommand, menu_command};

verus! {

/// The durable state of one run of the game.
#[derive(Clone, Copy, Debug, PartialEq, Eq, Structural)]
pub struct GameSession {
    /// The top-level phase.
    pub game: GameState,
    /// The menu screen showing, if any.
    pub menu: MenuState,
    /// Checkpoints reached since play last started.
    pub points: PlayerPoints,
    /// Whether play was interrupted, so that the next start of play
    /// resumes at the saved poses.
    pub resuming: bool,
    /// The avatar's pose when play was last interrupted.
    pub saved_player: Placement,
    /// The camera's pose when play was last interrupted.
    pub saved_camera: Placement,
}

impl GameSession {
    /// Which menu screen goes with which top-level phase: no menu while
    /// the splash screen shows, while playing or during the brief pause;
    /// the main screen at the menu; the help screen while help shows.
    pub open spec fn wf(self) -> bool {
        match self.game {
            GameState::Splash => self.menu == MenuState::Disabled,
            GameState::Game => self.menu == MenuState::Disabled,
            GameState::Pause => self.menu == MenuState::Disabled,
            GameState::Menu => self.menu == MenuState::Main,
            GameState::Help => self.menu == MenuState::Help,
            GameState::Lose => true,
        }
    }

    /// A fresh run: on the splash screen, no menu, no points, nothing
    /// saved.
    pub fn start() -> (s: GameSession)
        ensures
            s == (GameSession {
                game: GameState::Splash,
                menu: MenuState::Disabled,
                points: PlayerPoints { count: 0 },
                resuming: false,
                saved_player: Placement {
                    position: crate::geom::Vec3Fix { x: 0, y: 0, z: 0 },
                    rotation: crate::geom::QuatFix { x: 0, y: 0, z: 0, w: 1000 },
                },
                saved_camera: Placement {
                    position: crate::geom::Vec3Fix { x: 0, y: 0, z: 0 },
                    rotation: crate::geom::QuatFix { x: 0, y: 0, z: 0, w: 1000 },
                },
            }),
            s.wf(),
    {
        let rest = Placement {
            position: crate::geom::Vec3Fix { x: 0, y: 0, z: 0 },
            rotation: crate::geom::QuatFix { x: 0, y: 0, z: 0, w: 1000 },
        };
        GameSession {
            game: GameState::Splash,
            menu: MenuState::Disabled,
            points: PlayerPoints { count: 0 },
            resuming: false,
            saved_player: rest,
            saved_camera: rest,
        }
    }

    /// The splash timer ran out: the menu comes up on its main screen.
    pub fn on_splash_timeout(&mut self)
        requires
            old(self).wf(),
            old(self).game == GameState::Splash,
        ensures
            *final(self) == (GameSession {
                game: GameState::Menu,
                menu: MenuState::Main,
                ..*old(self)
            }),
            final(self).wf(),
    {
        self.game = GameState::Menu;
        self.menu = MenuState::Main;
    }

    /// The round clock ran out during play: back to the menu's main
    /// screen.
    pub fn on_round_timeout(&mut self)
        requires
            old(self).wf(),
            old(self).game == GameState::Game,
        ensures
            *final(self) == (GameSession {
                game: GameState::Menu,
                menu: MenuState::Main,
                ..*old(self)
            }),
            final(self).wf(),
    {
        self.game = GameState::Menu;
        self.menu = MenuState::Main;
    }

    /// The pause key was pressed during play: whatever poses the engine
    /// could read are saved, play is interrupted, and the next start of
    /// play will resume from them.
    pub fn on_escape(&mut self, player: Option<Placement>, camera: Option<Placement>)
        requires
            old(self).wf(),
            old(self).game == GameState::Game,
        ensures
            final(self).game == GameState::Pause,
            final(self).menu == old(self).menu,
            final(self).points == old(self).points,
            final(self).resuming,
            final(self).saved_player == match player {
                Some(p) => p,
                None => old(self).saved_player,
            },
            final(self).saved_camera == match camera {
                Some(c) => c,
                None => old(self).saved_camera,
            },
            final(self).wf(),
    {
        if let Some(p) = player {
            self.saved_player = p;
        }
        if let Some(c) = camera {
            self.saved_camera = c;
        }
        self.game = GameState::Pause;
        self.resuming = true;
    }

    /// The avatar ran into a person: play halts for a moment, and the
    /// caller is told to despawn the person, play the collision sound,
    /// restart the pause countdown and spawn a checkpoint marker.
    pub fn on_person_touch(&mut self) -> (o: TouchOutcome)
        requires
            old(self).wf(),
            old(self).game == GameState::Game,
        ensures
            o == (TouchOutcome {
                despawn_prop: true,
                play_sound: true,
                reset_pause_timer: true,
                next_game: Some(GameState::Pause),
                award_point: false,
                spawn_next: Some(Prop::Checkpoint),
            }),
            *final(self) == (GameSession { game: GameState::Pause, ..*old(self) }),
            final(self).wf(),
    {
        let o = touch_outcome(Prop::Person);
        self.game = GameState::Pause;
        o
    }

    /// The avatar reached a checkpoint marker: a point is scored, and
    /// the caller is told to despawn the marker, play the collision
    /// sound and spawn a new person.
    pub fn on_checkpoint_touch(&mut self) -> (o: TouchOutcome)
        requires
            old(self).wf(),
            old(self).game == GameState::Game,
            old(self).points.count < u32::MAX,
        ensures
            o == (TouchOutcome {
                despawn_prop: true,
                play_sound: true,
                reset_pause_timer: false,
                next_game: None,
                award_point: true,
                spawn_next: Some(Prop::Person),
            }),
            *final(self) == (GameSession {
                points: PlayerPoints { count: (old(self).points.count + 1) as u32 },
                ..*old(self)
            }),
            final(self).wf(),
    {
        let o = touch_outcome(Prop::Checkpoint);
        self.points.award();
        o
    }

    /// The short pause after running into a person ran out: play starts
    /// over, and as with every start of play the points start from
    /// nothing.
    pub fn on_pause_elapsed(&mut self)
        requires
            old(self).wf(),
            old(self).game == GameState::Pause,
        ensures
            *final(self) == (GameSession {
                game: GameState::Game,
                points: PlayerPoints { count: 0 },
                ..*old(self)
            }),
            final(self).wf(),
    {
        self.game = GameState::Game;
        self.points = PlayerPoints { count: 0 };
    }

    /// A menu button was pressed. The session applies what the button
    /// decides — the next phase, the next menu screen, whether saved
    /// poses still count — and hands the rest of the command back for
    /// the caller to carry out. Starting play resets the points.
    pub fn on_menu_click(&mut self, action: MenuButtonAction) -> (cmd: MenuCommand)
        requires
            old(self).wf(),
            old(self).game == GameState::Menu || old(self).game == GameState::Pause
                || old(self).game == GameState::Lose,
        ensures
            cmd == crate::state::menu_command_spec(action, old(self).resuming),
            final(self).game == match cmd.next_game {
                Some(g) => g,
                None => old(self).game,
            },
            final(self).menu == match cmd.next_menu {
                Some(m) => m,
                None => old(self).menu,
            },
            final(self).resuming == cmd.resuming_after,
            final(self).points == if action == MenuButtonAction::Play {
                PlayerPoints { count: 0 }
            } else {
                old(self).points
            },
            final(self).saved_player == old(self).saved_player,
            final(self).saved_camera == old(self).saved_camera,
            final(self).wf(),
    {
        let cmd = menu_command(action, self.resuming);
        if let Some(g) = cmd.next_game {
            self.game = g;
        }
        if let Some(m) = cmd.next_menu {
            self.menu = m;
        }
        self.resuming = cmd.resuming_after;
        if let MenuButtonAction::Play = action {
            self.points = PlayerPoints { count: 0 };
        }
        cmd
    }
}

} // verus!
