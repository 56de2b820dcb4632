//! Simulation core of a small arcade flight-combat game.
//!
//! Entities live in densely indexed, append-only stores; an entity is known
//! by its slot index in each store. Every scalar quantity (coordinates,
//! speeds, angular rates, time steps) is a fixed-point number counted in
//! millionths of a unit, see [`fixed`].
//!
//! One tick of the simulation runs in this order, with one time step for
//! all of it: the keyboard is read into the control input
//! ([`aircraft_input`]), the aircraft are flown ([`aircraft`], by the rules
//! of [`flight`]), and the collisions are found again from the new positions
//! ([`collider`]).
//!
//! Orientations are opaque to the core. The transform store keeps them, and
//! a tick hands them back to where they started on a reset, but it computes
//! none: the caller derives the forward and right vectors of an orientation
//! before the tick and turns the orientation afterwards, as the action that
//! the tick returns tells it.
pub mod aircraft;
pub mod aircraft_input;
pub mod building;
pub mod collider;
pub mod fixed;
pub mod flight;
pub mod game_state;
pub mod inventory;
pub mod keyboard_manager;
pub mod model;
pub mod player_camera;
pub mod sample_scene;
pub mod terrain;
pub mod transform;
pub mod vector;
