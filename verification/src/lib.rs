//! The simulation core of a small 2D arcade game, verified with Verus.
//!
//! A player walks around a bounded arena, approaches minions and plays a timed
//! ring-matching mini-game to befriend them before a countdown runs out. This
//! crate advances that world one frame at a time and computes what a renderer
//! has to draw; it opens no window and loads no asset.
//!
//! Every real-valued quantity (a position in pixels, a time in seconds, a draw
//! scale) is held as a signed integer count of millionths, see [`units::UNIT`].
//! Frame times are whole microseconds.
//!
//! [`session::Session`] is the state of a game and [`session::Session::update`]
//! its frame step. What a frame does is defined over [`world::World`], the
//! mathematical model of a session, by [`world::World::frame`]; the modules
//! below the session hold the parts of a frame, each with its own contract.
//! Random numbers come from the `rand` crate through [`chance`]; what is proved
//! holds whichever numbers are drawn.

pub mod units;
pub mod geometry;
pub mod actor;
pub mod input;
pub mod physics;
pub mod ring;
pub mod chance;
pub mod placement;
pub mod proximity;
pub mod world;
pub mod session;
pub mod view;
