//! Live performance metrics for a stream of buffers: frame rate, bitrate
//! with an exact cumulative or fixed-window mean, and CPU load.

pub mod average;
pub mod cpu;
pub mod perf;
