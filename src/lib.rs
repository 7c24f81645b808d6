pub mod pattern;
pub mod registry;
pub mod supervisor;
pub mod terminator;
