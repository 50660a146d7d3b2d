//! Verified rules of the ray tracer's point and vector algebra.

pub mod tuple;
