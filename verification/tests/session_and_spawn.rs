use future_of_mail::geom::{Placement, QuatFix, Vec3Fix};
use future_of_mail::session::GameSession;
use future_of_mail::spawn::{building_sites, clears_on_exit, prop_sites, random_prop_site};
use future_of_mail::state::{GameState, MenuButtonAction, MenuState};

fn pose(x: i64, y: i64, z: i64) -> Placement {
    Placement {
        position: Vec3Fix { x, y, z },
        rotation: QuatFix { x: 0, y: 0, z: 0, w: 1000 },
    }
}

#[test]
fn a_run_walks_from_splash_to_play() {
    let mut s = GameSession::start();
    assert_eq!(s.game, GameState::Splash);
    assert_eq!(s.menu, MenuState::Disabled);
    s.on_splash_timeout();
    assert_eq!(s.game, GameState::Menu);
    assert_eq!(s.menu, MenuState::Main);
    let cmd = s.on_menu_click(MenuButtonAction::Play);
    assert!(!cmd.restore_saved);
    assert_eq!(s.game, GameState::Game);
    assert_eq!(s.menu, MenuState::Disabled);
    assert_eq!(s.points.count, 0);
}

#[test]
fn escape_saves_poses_and_play_resumes_them() {
    let mut s = GameSession::start();
    s.on_splash_timeout();
    s.on_menu_click(MenuButtonAction::Play);
    s.on_escape(Some(pose(100, 11, -50)), Some(pose(-300, 300, -100)));
    assert_eq!(s.game, GameState::Pause);
    assert!(s.resuming);
    assert_eq!(s.saved_player, pose(100, 11, -50));
    assert_eq!(s.saved_camera, pose(-300, 300, -100));
    let cmd = s.on_menu_click(MenuButtonAction::Play);
    assert!(cmd.restore_saved);
    assert_eq!(s.game, GameState::Game);
    assert!(!s.resuming);
}

#[test]
fn escape_keeps_old_poses_when_none_could_be_read() {
    let mut s = GameSession::start();
    s.on_splash_timeout();
    s.on_menu_click(MenuButtonAction::Play);
    s.on_escape(Some(pose(7, 7, 7)), Some(pose(8, 8, 8)));
    s.on_pause_elapsed();
    s.on_escape(None, None);
    assert_eq!(s.saved_player, pose(7, 7, 7));
    assert_eq!(s.saved_camera, pose(8, 8, 8));
}

#[test]
fn a_person_touch_pauses_and_the_pause_restarts_play_without_points() {
    let mut s = GameSession::start();
    s.on_splash_timeout();
    s.on_menu_click(MenuButtonAction::Play);
    let o = s.on_checkpoint_touch();
    assert!(o.award_point);
    assert_eq!(s.points.count, 1);
    let o = s.on_person_touch();
    assert!(o.reset_pause_timer);
    assert_eq!(s.game, GameState::Pause);
    assert_eq!(s.points.count, 1);
    s.on_pause_elapsed();
    assert_eq!(s.game, GameState::Game);
    assert_eq!(s.points.count, 0);
}

#[test]
fn help_and_back_walk_between_menu_screens() {
    let mut s = GameSession::start();
    s.on_splash_timeout();
    let cmd = s.on_menu_click(MenuButtonAction::Help);
    assert_eq!(s.game, GameState::Help);
    assert_eq!(s.menu, MenuState::Help);
    assert!(!cmd.exit_app);
    // the back button returns to the main screen
    s.game = GameState::Menu;
    s.menu = MenuState::Main;
    let cmd = s.on_menu_click(MenuButtonAction::BackToMainMenu);
    assert_eq!(s.game, GameState::Menu);
    assert_eq!(s.menu, MenuState::Main);
    assert!(!cmd.exit_app);
}

#[test]
fn quit_leaves_the_session_where_it_stood() {
    let mut s = GameSession::start();
    s.on_splash_timeout();
    let cmd = s.on_menu_click(MenuButtonAction::Quit);
    assert!(cmd.exit_app);
    assert_eq!(s.game, GameState::Menu);
    assert_eq!(s.menu, MenuState::Main);
}

#[test]
fn the_rim_has_sixteen_spawn_sites() {
    let sites = prop_sites();
    assert_eq!(sites.len(), 16);
    assert_eq!(sites[0], Vec3Fix { x: 1650, y: 11, z: 30 });
    assert_eq!(sites[7], Vec3Fix { x: 0, y: 11, z: -1900 });
    assert_eq!(sites[15], Vec3Fix { x: -1650, y: 11, z: 0 });
    for site in sites.iter() {
        assert_eq!(site.y, 11);
    }
}

#[test]
fn a_random_site_always_comes_from_the_table() {
    let sites = prop_sites();
    for _ in 0..64 {
        let site = random_prop_site();
        assert!(sites.contains(&site));
    }
}

#[test]
fn the_skyline_has_fortythree_buildings_in_five_kinds() {
    let buildings = building_sites();
    assert_eq!(buildings.len(), 43);
    let counts = (1u8..=5).map(|k| buildings.iter().filter(|b| b.kind == k).count()).collect::<Vec<_>>();
    assert_eq!(counts, vec![9, 8, 9, 9, 8]);
    assert_eq!(buildings[0].at, Vec3Fix { x: 250, y: 11, z: 250 });
    assert_eq!(buildings[42].at, Vec3Fix { x: 700, y: 11, z: 1650 });
    for b in buildings.iter() {
        assert_eq!(b.at.y, 11);
    }
}

#[test]
fn clearing_the_world_spares_the_avatar() {
    assert!(clears_on_exit(false));
    assert!(!clears_on_exit(true));
}
