//! Game rules, menus, action state machines and frame history of the
//! Canon Collision platform fighter, with their contracts proved by Verus.

pub mod rules;
pub mod menu_ticker;
pub mod menu;
pub mod results;
pub mod game;
pub mod text;
pub mod character_select;
pub mod player;
pub mod ground;
pub mod air;
pub mod shield;
pub mod frame;
pub mod toriel;
pub mod audio;
pub mod entity;
pub mod timeline;
pub mod order;
pub mod editor;
pub mod seed;
pub mod camera;
pub mod assets;
pub mod replays;
pub mod collision;
pub mod launch;
pub mod item_grab;
