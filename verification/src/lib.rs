//! Game-client logic that does not depend on rendering or on the physics
//! engine: the fixed-timestep clock that decides when a game tick is due,
//! the arrow-key movement input, the enemy sprite flip-book and the layout of
//! asset requests.
pub mod timestepper;
pub mod input;
pub mod animation;
pub mod assets;
