//! Numeric building blocks for laser-projection signal pipelines.
//!
//! The heart of the crate is [`scale::Scaler`], which rescales a sample from
//! one bounded integer range into another using saturating arithmetic, so a
//! sample outside the source range degrades to a clamped value instead of
//! wrapping around and corrupting hardware output. The saturating stages of
//! that transform are stated and proved here; the floating-point
//! normalisation step between them, like the trigonometric point rotations,
//! lives outside the verified core.

pub mod scale;
