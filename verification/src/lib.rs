//! Gameplay core of a tile-grid action game.
//!
//! The player walks over a level of square tiles, is stopped by walls, hurt by
//! patrolling cows, picks up keys, carrots and bronze, travels through a portal
//! and leaves a level through its goal once enough keys are collected.
//!
//! Everything here is exact integer arithmetic. Continuous positions are
//! counted in millionths of a pixel, frame times in microseconds and health in
//! millionths of a point, so that one frame at a speed of `n` pixels per second
//! moves an entity by exactly `n` position units per microsecond.
//!
//! The rules are proved against their contracts. The one thing taken on trust
//! is the behaviour of the engine's timer, stated at the top of `timer`.
//!
//! `world` holds the whole game as one value and moves it on frame by frame;
//! the other modules hold the rules it is made of, each usable on its own.

pub mod collisions;
pub mod consts;
pub mod coords;
pub mod enemies;
pub mod gameplay;
pub mod items;
pub mod math;
pub mod player;
pub mod timer;
pub mod ui;
pub mod world;
