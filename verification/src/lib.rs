//! Telemetry agent of a fleet robot, as a library: classification of the
//! hardware variant, the static profile and the dynamic snapshot, the state
//! that survives restarts with its count of boots, and the monitoring loop
//! as a state machine. Reading the host, writing the record and talking to
//! the network are left to the program around it.

pub mod clock;
pub mod ident;
pub mod monitor;
pub mod net;
pub mod parse;
pub mod robot_type;
pub mod state;
pub mod telemetry;
pub mod text;
