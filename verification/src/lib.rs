//! A software 3D rendering pipeline over 16.16 fixed-point arithmetic.

pub mod camera;
pub mod color;
pub mod coverage;
pub mod fixed;
pub mod fragment;
pub mod framebuffer;
pub mod input;
pub mod lighting;
pub mod matrix;
pub mod noise;
pub mod planets;
pub mod render;
pub mod shaders;
pub mod transform;
pub mod triangle;
pub mod trig;
pub mod uniforms;
pub mod vector;
pub mod vertex;
pub mod zoom_law;
