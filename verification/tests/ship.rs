use torus_trooper::pad::{PadButtons, PadDirection, PadState};
use torus_trooper::ship::{Ship, FIRE_INTERVAL, INVINCIBLE_CNT, RESTART_CNT, SIDE_FIRE_OFF};
use torus_trooper::shot::ShotPool;

fn input(d: PadDirection, b: PadButtons) -> Option<PadState> {
    Some(PadState { direction: d, buttons: b })
}

#[test]
fn new_ship() {
    let s = Ship::new();
    assert!(!s.is_game_over());
    assert!(s.is_camera_mode());
    assert!(s.is_draw_front_mode());
    assert!(s.is_boss_mode_end());
    assert_eq!(s.rank(), 0);
}

#[test]
fn controls_wait_for_invincibility_phase_and_button_release() {
    let mut s = Ship::new();
    s.start(false, 1);
    assert_eq!(s.grade(), 1);
    // counter goes from -228 to -227: past the restart phase, controls obeyed
    let c = s.controls(input(PadDirection::left(), PadButtons::a()));
    assert_eq!(c.direction, PadDirection::left());
    // the button held from the menu is ignored
    assert_eq!(c.buttons, PadButtons::none());
    let c = s.controls(input(PadDirection::none(), PadButtons::none()));
    assert_eq!(c.buttons, PadButtons::none());
    let c = s.controls(input(PadDirection::none(), PadButtons::a()));
    assert_eq!(c.buttons, PadButtons::a());
}

#[test]
fn destroyed_ship_restarts() {
    let mut shots = ShotPool::new(4);
    let mut s = Ship::new();
    s.start(false, 0);
    assert!(!s.destroyed(&mut shots));
    for _ in 0..(INVINCIBLE_CNT + 1) {
        s.controls(input(PadDirection::none(), PadButtons::none()));
    }
    assert!(s.has_collision());
    assert!(s.destroyed(&mut shots));
    assert!(!s.has_collision());
    assert!(!s.is_drawn());
    let c = s.controls(input(PadDirection::up(), PadButtons::none()));
    assert_eq!(c.direction, PadDirection::none());
    for _ in 0..(RESTART_CNT - INVINCIBLE_CNT) {
        s.controls(input(PadDirection::none(), PadButtons::none()));
    }
    let c = s.controls(input(PadDirection::up(), PadButtons::none()));
    assert_eq!(c.direction, PadDirection::up());
}

#[test]
fn replay_running_out_ends_game() {
    let mut s = Ship::new();
    s.start(true, 0);
    assert!(s.is_replay_mode());
    let c = s.controls(None);
    assert!(s.is_game_over());
    assert_eq!(c.direction, PadDirection::none());
    let c = s.controls(input(PadDirection::up(), PadButtons::a()));
    assert_eq!(c.direction, PadDirection::none());
    assert_eq!(c.buttons, PadButtons::none());
}

#[test]
fn rank_rises_to_bosses_and_next_zone() {
    let mut s = Ship::new();
    s.start(false, 0);
    s.set_boss_app(2, 2, 3);
    assert!(!s.rank_up(false));
    assert_eq!(s.rank(), 1);
    assert!(!s.in_boss_mode());
    assert!(!s.rank_up(false));
    assert_eq!(s.rank(), 2);
    assert!(s.in_boss_mode());
    // ordinary kills do not count while bosses are out
    assert!(!s.rank_up(false));
    assert_eq!(s.rank(), 2);
    s.rank_down();
    assert_eq!(s.rank(), 2);
    assert!(!s.rank_up(true));
    assert_eq!(s.rank(), 3);
    assert_eq!(s.ranks_to_zone_end(), 0);
    assert!(s.rank_up(true));
    assert!(!s.in_boss_mode());
    assert!(s.is_boss_mode_end());
    assert_eq!(s.rank(), 4);
    s.start_next_zone();
    assert!(!s.is_boss_mode_end());
}

#[test]
fn rank_down_and_forced_zone_end() {
    let mut s = Ship::new();
    s.start(false, 0);
    s.set_boss_app(10, 1, 20);
    s.rank_up(false);
    s.rank_up(false);
    s.rank_down();
    assert_eq!(s.rank(), 1);
    assert_eq!(s.ranks_to_zone_end(), 19);
    s.goto_next_zone_forced();
    assert!(s.is_boss_mode_end());
    s.game_over();
    assert!(!s.rank_up(false));
    assert_eq!(s.rank(), 1);
}

#[test]
fn view_modes() {
    let mut s = Ship::new();
    s.camera_mode(false);
    s.draw_front_mode(false);
    assert!(!s.is_camera_mode());
    assert!(!s.is_draw_front_mode());
}

#[test]
fn main_guns_fire_every_fire_interval_frames() {
    let mut shots = ShotPool::new(64);
    let mut s = Ship::new();
    s.start(false, 0);
    let mut fired = Vec::new();
    for frame in 0..9 {
        let f = s.fire(PadButtons::a(), SIDE_FIRE_OFF, &mut shots);
        if let Some((_, n)) = f.main_shot {
            fired.push((frame, n));
        }
    }
    assert_eq!(FIRE_INTERVAL, 2);
    assert_eq!(fired, vec![(0, 0), (2, 1), (4, 2), (6, 3), (8, 4)]);
}

#[test]
fn every_seventh_main_shot_is_a_star_shell() {
    let mut shots = ShotPool::new(64);
    let mut s = Ship::new();
    s.start(false, 0);
    let mut stars = Vec::new();
    for _ in 0..30 {
        let f = s.fire(PadButtons::a(), SIDE_FIRE_OFF, &mut shots);
        if let Some((r, n)) = f.main_shot {
            let shot = shots.index(r);
            assert_eq!(shot.damage(), 1);
            assert!(!shot.is_charge_shot());
            if shot.sparks().is_some() {
                stars.push(n);
            }
        }
    }
    assert_eq!(stars, vec![0, 7, 14]);
}

#[test]
fn side_guns_wait_for_their_limit() {
    let mut shots = ShotPool::new(64);
    let mut s = Ship::new();
    s.start(false, 0);
    let mut side = Vec::new();
    for frame in 0..10 {
        let f = s.fire(PadButtons::a(), 3, &mut shots);
        if let Some((_, n)) = f.side_shot {
            side.push((frame, n));
        }
    }
    // the side count starts where a restart leaves it
    assert_eq!(side, vec![(0, 99999), (3, 100000), (6, 100001), (9, 100002)]);
}

#[test]
fn side_guns_rest_without_speed() {
    let mut shots = ShotPool::new(64);
    let mut s = Ship::new();
    s.start(false, 0);
    let mut side = 0;
    for _ in 0..50 {
        if s.fire(PadButtons::a(), SIDE_FIRE_OFF, &mut shots).side_shot.is_some() {
            side += 1;
        }
    }
    assert_eq!(side, 1);
}

#[test]
fn full_pool_fires_nothing_more() {
    let mut shots = ShotPool::new(1);
    let mut s = Ship::new();
    s.start(false, 0);
    let f = s.fire(PadButtons::a(), SIDE_FIRE_OFF, &mut shots);
    assert!(f.main_shot.is_some());
    assert!(f.side_shot.is_none());
    s.fire(PadButtons::none(), SIDE_FIRE_OFF, &mut shots);
    let f = s.fire(PadButtons::a(), SIDE_FIRE_OFF, &mut shots);
    assert!(f.main_shot.is_none());
}

#[test]
fn short_charge_is_dropped_on_release() {
    let mut shots = ShotPool::new(8);
    let mut s = Ship::new();
    s.start(false, 0);
    let f = s.fire(PadButtons::b(), SIDE_FIRE_OFF, &mut shots);
    let r = f.charge_started.unwrap();
    assert!(shots.index(r).is_charge_shot());
    assert!(shots.index(r).is_in_charge());
    assert_eq!(shots.index(r).damage(), 100);
    // holding on does not start another charge
    let f = s.fire(PadButtons::b().union(PadButtons::a()), SIDE_FIRE_OFF, &mut shots);
    assert!(f.charge_started.is_none());
    assert!(f.main_shot.is_none());
    let f = s.fire(PadButtons::none(), SIDE_FIRE_OFF, &mut shots);
    assert_eq!(f.charge_released, Some((r, true)));
}

#[test]
fn long_charge_flies_on_release() {
    let mut shots = ShotPool::new(8);
    let mut s = Ship::new();
    s.start(false, 0);
    let r = s.fire(PadButtons::b(), SIDE_FIRE_OFF, &mut shots).charge_started.unwrap();
    for _ in 0..30 {
        shots.index_mut(r).charge_step();
    }
    let f = s.fire(PadButtons::a(), SIDE_FIRE_OFF, &mut shots);
    assert_eq!(f.charge_released, Some((r, false)));
    assert!(!shots.index(r).is_in_charge());
    assert_eq!(shots.index(r).charge_cnt(), 30);
    // the fire button fires in the same frame
    assert!(f.main_shot.is_some());
}

#[test]
fn destroyed_ship_gives_back_its_charge() {
    let mut shots = ShotPool::new(2);
    let mut s = Ship::new();
    s.start(false, 0);
    for _ in 0..(INVINCIBLE_CNT + 1) {
        s.controls(input(PadDirection::none(), PadButtons::none()));
    }
    s.fire(PadButtons::b(), SIDE_FIRE_OFF, &mut shots);
    assert!(s.destroyed(&mut shots));
    // both slots are idle again: two plain shots fit
    let f = s.fire(PadButtons::a(), 0, &mut shots);
    assert!(f.main_shot.is_some());
    assert!(f.side_shot.is_some());
    assert_eq!(f.main_shot.unwrap().1, 0);
}

#[test]
fn can_fire_checks_the_charge_shot() {
    let mut shots = ShotPool::new(2);
    let mut s = Ship::new();
    s.start(false, 0);
    assert!(s.can_fire(PadButtons::a(), &shots));
    s.fire(PadButtons::b(), SIDE_FIRE_OFF, &mut shots);
    assert!(s.can_fire(PadButtons::none(), &shots));
    shots.clear();
    // the charge shot was cleared away: letting go of it is not allowed
    assert!(!s.can_fire(PadButtons::none(), &shots));
    assert!(s.can_fire(PadButtons::b(), &shots));
    assert_eq!(s.cnt(), -INVINCIBLE_CNT);
}

#[test]
fn enemies_reached_and_falling_behind_move_the_rank() {
    let mut s = Ship::new();
    s.start(false, 0);
    s.set_boss_app(10, 1, 20);
    // an enemy ahead that the ship reaches raises the rank
    assert_eq!(s.track_enemy(true, true, false), (false, false));
    assert_eq!(s.rank(), 1);
    // still behind: nothing changes
    assert_eq!(s.track_enemy(false, true, false), (false, false));
    assert_eq!(s.rank(), 1);
    // it gets ahead again: the rank drops
    assert_eq!(s.track_enemy(false, false, false), (true, false));
    assert_eq!(s.rank(), 0);
    // ahead and not reached: nothing changes
    assert_eq!(s.track_enemy(true, false, false), (true, false));
    assert_eq!(s.rank(), 0);
}
