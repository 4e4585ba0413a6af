//! Verified core of a Blade & Soul automation toolkit: pixel decoding, skill
//! availability checks, class rotations as step machines, configuration
//! parsing and the bookkeeping of the dungeon bots.
pub mod color;
pub mod text;
pub mod settings;
pub mod keys;
pub mod classes;
pub mod activity;
pub mod game;
pub mod memory;
pub mod input;
pub mod bot;
pub mod hook;
