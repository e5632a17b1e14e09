//! Off-screen capture orchestration: a verified model of the render /
//! capture / write / drain lifecycle of a hi-res image capture helper.

pub mod capture;
pub mod laws;
