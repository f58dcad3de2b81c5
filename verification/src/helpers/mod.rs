//! Helpers shared by the debloat steps: name matching, command arguments,
//! image listings and the command line.
pub mod cli;
pub mod h;
pub mod iso;
pub mod wim;
