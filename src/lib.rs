//! Circadian light targets for a group of smart lights, and the decisions that
//! keep a bridge's managed scenes in step with them.
//!
//! All quantities are fixed-point integers: fractions are parts of
//! [`curve::FRACTION_ONE`], angles are millidegrees of a full turn
//! [`light_target::TURN`], altitudes are millidegrees. Values that only a
//! floating-point computation can give (the sun's altitude, a logistic curve,
//! a cosine) are inputs of the functions that need them.
pub mod brightness_tolerance;
pub mod config;
pub mod curve;
pub mod light_target;
pub mod mired_tolerance;
pub mod pairing;
pub mod pass;
pub mod reconcile;
pub mod scene;
pub mod schedule;
