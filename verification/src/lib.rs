//! The game logic of Torus Trooper, a shooter set in a tunnel: actor pools, the pad
//! and its recordings, the ship's rank, boss zones and guns, the score and clock, the
//! title menu, preferences, the tunnel's layout, music choice, text layout and display
//! list naming, each with its contract proved.

pub mod actor;
pub mod barrage;
pub mod display_list;
pub mod letter;
pub mod manager;
pub mod options;
pub mod pad;
pub mod prefs;
pub mod random;
pub mod shared_state;
pub mod ship;
pub mod shot;
pub mod sound;
pub mod stage;
pub mod title;
pub mod tunnel;
