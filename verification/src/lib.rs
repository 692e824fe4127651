//! Core logic of a small grid-based game: conversion between tile-grid
//! coordinates and pixel positions, a wall-clock-driven sprite animation
//! clock, and the per-tick movement of the single playable entity toward a
//! destination tile.
//!
//! Pixel positions, resolutions and animation progress are kept as exact
//! integer data (pixels, milliseconds, and frame counts over a total), so
//! every rule can be stated and checked precisely. The windowing, rendering
//! and input plumbing around this library hands in plain values (pixel
//! coordinates, timestamps) and receives plain values back.

pub mod animation;
pub mod coords;
pub mod direction;
pub mod game;
pub mod player;
