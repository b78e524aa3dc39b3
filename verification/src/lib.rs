//! Model of a small retained-mode rendering demo: a scene with two disks, a
//! rotating directional light and a camera whose depth pre-pass can be toggled
//! with the space key.
//!
//! The library holds the demo's decisions as verified functions over a plain
//! world model: scene setup, the per-frame rotator, the pre-pass toggle and
//! the material composition. An engine loop around the library performs the
//! actual drawing and input reading and hands plain values back.

pub mod assets;
pub mod material;
pub mod transform;
pub mod world;
