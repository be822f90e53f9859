//! Current-weather lookup: request construction, wind-direction bucketing,
//! clock formatting and report rendering, with their contracts.
pub mod clock;
pub mod compass;
pub mod error;
pub mod report;
pub mod request;
