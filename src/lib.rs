//! Verified core of a Monte-Carlo path tracer: the bounded-bounce control of the
//! color integrator, the pixel order and settings of the sampling driver, and the
//! PPM text encoding of quantized pixels.
pub mod integrator;
pub mod ppm;
pub mod sampling;
