//! Verified core of a neuro-evolution racing sandbox: the decisions and the
//! bookkeeping of the simulation, separated from rendering, input and the
//! floating-point physics that drive it.
pub mod collider;

pub mod controls;
pub mod generation;
pub mod ring;
pub mod track;
pub mod world;
pub mod editor;
