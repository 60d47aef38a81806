//! Simulation core of a 2D ball-launch puzzle game.
//!
//! A player aims a volley of balls at a grid of numbered blocks, then watches
//! them travel in straight lines across a bounded playfield. This crate holds
//! the per-tick engine: the aiming state machine that turns pointer input into
//! a launch angle, the sequential launcher that releases one ball per tick once
//! the aim is locked, and the integration system that advances every moving
//! entity. Rendering, windowing and raw input live outside the crate and only
//! read simulation state or feed it normalized input.
//!
//! All world coordinates, angles and speeds are fixed-point integers (see
//! [`math::SCALE`]); the layer that reports a confirmed aim also evaluates the
//! trigonometry and hands the engine the aim angle together with its unit
//! direction vector as plain fixed-point values.

pub mod ball_launcher;
pub mod components;
pub mod direction_select;
pub mod laws;
pub mod math;
pub mod physics;
pub mod resources;
pub mod world;
