//! Model profile overlay: the profiles with the current one marked, a
//! reasoning-effort picker, and an editor for profile settings.

pub mod types;
pub mod state;
pub mod keys;
pub mod view;
pub mod laws;
