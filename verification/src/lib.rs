//! Core simulation of a single-screen endless "jump to the next platform"
//! arcade game: the finite game-state machine (main menu / playing / game
//! over), the closed-form jump and fall trajectories with landing detection,
//! the procedural platform generator, the camera-follow policy, and the
//! scoring/feedback pipeline.
//!
//! All positions and times are integers: coordinates are world units, time is
//! counted in ticks, and every trajectory is evaluated in closed form from the
//! elapsed time of the attempt, never integrated incrementally. The rendering,
//! input and audio layers are outside collaborators; they drive [`game::Game`]
//! once per frame and read its state back.

pub mod camera;
pub mod game;
pub mod platform;
pub mod player;
pub mod score;
pub mod timer;
