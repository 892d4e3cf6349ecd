//! A brute-force Monte Carlo path tracer over fixed-point coordinates.
//!
//! Real-valued quantities (coordinates, colors, ray parameters) are carried as
//! 64-bit fixed-point numbers scaled by [`fx::FX_ONE`], so every geometric and
//! optical computation is exact integer arithmetic with stated rounding, and
//! the whole rendering pipeline is verified against those statements.

pub mod camera;
pub mod fx;
pub mod hit;
pub mod material;
pub mod plane;
pub mod rectanglexy;
pub mod render;
pub mod ray;
pub mod rng;
pub mod scene;
pub mod sphere;
pub mod vec3;
pub mod world;
