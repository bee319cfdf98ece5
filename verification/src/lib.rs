//! Floating ships for a simulated ocean: the hull reference points at which
//! the water surface is sampled, and the fleet that is put to sea.
//!
//! Every length is a whole number of thousandths of a world unit, every angle
//! a whole number of thousandths of a radian, so that all of it is exact.

pub mod fleet;
pub mod hull;
