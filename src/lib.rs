//! The discrete core of a flocking simulation: which agents an agent steers
//! by, how a degenerate rotation is resolved, and how an agent reacts to
//! leaving the arena. The floating-point kinematics that feed these
//! decisions live with the host program.
pub mod boundary;
pub mod neighborhood;
pub mod turn;
