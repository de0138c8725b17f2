//! A ray tracer for scenes of spheres and lights.
//!
//! A [`scene::Scene`] holds spheres, lights and a viewport. For each pixel of
//! a window it casts a ray from the camera, finds the nearest sphere that the
//! ray meets, gathers the light that reaches the point, and follows the
//! mirrored ray as far as the scene's depth allows.
//!
//! All numbers are fixed-point [`scalar::Scalar`]s, so that the colour of a
//! pixel is a total function of the scene, stated in [`model`] and proved of
//! the code. What follows from that definition for every scene is in
//! [`theory`].

pub mod color;
pub mod error;
pub mod light;
pub mod model;
pub mod scalar;
pub mod scene;
pub mod sphere;
pub mod theory;
pub mod vector;
pub mod viewport;
pub mod window;
