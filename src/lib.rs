//! A physics-coupled character locomotion controller in fixed-point integer units.
//!
//! Lengths are millimetres, speeds millimetres per second and accelerations millimetres
//! per second squared. Directions are scaled so that a unit vector has length
//! `DIRECTION_SCALE`.

pub mod arith;
pub mod input;
pub mod vector;
pub mod locomotion;
pub mod grounding;
pub mod jump;
pub mod driver;
pub mod controller;
