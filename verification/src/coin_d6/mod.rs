//! The COIN-D6 360-degree spinning dToF LiDAR.
//!
//! The sensor streams a continuous point cloud over a UART at a native 0.9 degree
//! resolution, 400 points per revolution. The pipeline has four stages:
//! [`decoder`] turns bytes into points and points into revolutions,
//! [`post_processing`] reduces revolutions by bearing, [`warmup`] decides when the
//! rotor has settled, and [`driver`] holds the decisions of the device lifecycle.

pub mod decoder;
pub mod decoder_laws;
pub mod driver;
pub mod post_processing;
pub mod post_processing_laws;
pub mod types;
pub mod warmup;
pub mod wire;
