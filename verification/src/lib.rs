//! Verified core of the embedder-side pieces of a Servo-based application:
//! path resolution for the `app://` protocol handlers, the build-time bridge
//! code generation plan, the game-engine DOM bridge messages, SDL input
//! translation and repaint tracking. Paths are Unix paths: `/` separates
//! their components.

pub mod paths;
pub mod directory;
pub mod app_protocol;
pub mod bridge_build;
pub mod game_engine;
pub mod input;
pub mod repaint;
pub mod build_profile;
