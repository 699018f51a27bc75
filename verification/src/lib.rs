//! Core logic of a small falling-object arcade game: a player sprite dodges
//! falling asteroids and collects falling scrap for points, with a
//! menu/shop/pause/game-over screen flow layered on top.
//!
//! The library holds the per-tick world update (movement, collision policy,
//! respawn rules), the screen-flow state machine, the speed curve, the music
//! timer, and the save-file codec, all with verified contracts. Geometry is
//! in whole pixels. Everything the engine owns (window, textures, sounds,
//! input devices, files) stays outside: callers hand in plain values (screen
//! size, elapsed milliseconds, pressed keys, file bytes) and receive plain
//! values and effect descriptions back.

pub mod game;
pub mod geometry;
pub mod player;
pub mod random;
pub mod save;
pub mod space_objects;
pub mod timer;
