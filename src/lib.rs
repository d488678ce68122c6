//! Resolution of an Arduino AVR project description into a build plan:
//! the compiler binary, the ordered include directories, and the C and C++
//! sources found under them.

pub mod path;
pub mod config;
pub mod layout;
pub mod discovery;
pub mod resolver;
pub mod laws;
