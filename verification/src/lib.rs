//! Verified core of the Curupira environmental monitor: the decisions and
//! data handling of the cloud service and of the edge sentinel.

pub mod buffer;
pub mod cloud;
pub mod edge;
pub mod labels;
pub mod seed;
pub mod spectrogram;
pub mod text;
pub mod wav;
