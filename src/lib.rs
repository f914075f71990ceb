//! Per-tick force computation for wheeled vehicles: ground contact, suspension,
//! drivetrain, longitudinal friction, cornering, steering, reset and the force
//! aggregator.
//!
//! Every physical quantity is a fixed-point integer counting thousandths (see
//! `fixed`), so sums are exact and the aggregate does not depend on the order
//! of contributions. The rigid-body solver stays outside: callers hand in the
//! bodies' state, each tire's world frame and ground-probe result, and the
//! base-ten logarithm, in millionths, that the engine's power curve needs
//! (see `drivetrain`); they get back a net force and torque per vehicle.

pub mod fixed;
pub mod model;
pub mod forces;
pub mod drivetrain;
pub mod aggregate;
pub mod contact;
pub mod controls;
pub mod vehicle;
pub mod tick;
pub mod presets;
