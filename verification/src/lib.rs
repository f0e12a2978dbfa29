//! Verified decision logic of a buoyancy (weather balloon) simulator: the
//! command line and its run schedule, the simulation's run state, parachute
//! deployment and the flight step's drag configuration, camera targeting and
//! movement, the debug overlays and time-scale controls,
//! the mission-control shell's open screens, and the layout of the monitors
//! and of the output log.
pub mod camera;
pub mod cli;
pub mod controls;
pub mod debug;
pub mod flight;
pub mod io;
pub mod monitors;
pub mod parachute;
pub mod shell;
pub mod sim_state;
