//! Deterministic simulation core of a two-player duel played over rollback
//! netcode.
//!
//! Every quantity that enters the simulated world is an integer: time is a
//! frame number with a 32-bit sub-frame fraction, durations are signed tick
//! counts, stamina is a normalised 64-bit unsigned value.  Two peers fed the
//! same confirmed inputs therefore compute bit-identical worlds.

pub mod time;
pub mod player;
pub mod event;
pub mod combat;
pub mod final_clash;
pub mod wire;
pub mod world;
pub mod clock;
pub mod snapshot;
pub mod stepper;
pub mod laws;
pub mod present;
