//! Simulation core of a side-scrolling runner game: two physics-driven
//! characters (the player-controlled Runner and the autonomous Companion),
//! a publish/subscribe event queue, a procedurally extended obstacle course
//! with axis-aligned collision detection, and a top-level gameplay state
//! machine (Ready, Walking, GameOver).
//!
//! Rendering, asset loading, audio and input wiring are outside this crate;
//! the library works on plain values and is driven one tick at a time.

pub mod dog;
pub mod event_queue;
pub mod game;
pub mod game_states;
pub mod image;
pub mod obstacles;
pub mod rect;
pub mod red_hat_boy;
pub mod segments;
pub mod sheet;
pub mod text;
pub mod walk;
