//! Verified core of an LED panel display service: configuration and resource
//! limits, request validation, image scaling, scroll and animation playback
//! decisions, the decoding pipeline that feeds them, and what the backends
//! compute before output.
pub mod limits;
pub mod text;
pub mod display;
pub mod raster;
pub mod mime;
pub mod client;
pub mod request;
pub mod playback;
pub mod work;
pub mod error;
pub mod decode;
pub mod present;
pub mod worker;
pub mod config;
pub mod audio;
pub mod backend;
