//! Input normalisation, camera state and quad emission for an interactive
//! 3D scene, with every rule stated as a contract and proved.
//!
//! All analogue input is held in *axis counts*: the signed 16-bit unit in
//! which a game controller reports a stick or a trigger. `AXIS_ONE` counts
//! are one whole unit of deflection.

pub mod camera;
pub mod container;
pub mod controller;
pub mod frame;
pub mod host;
pub mod input;
pub mod projection;
