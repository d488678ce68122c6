use std::collections::HashMap;
use vstd::prelude::*;

verus! {

/// Name patterns handed on, untouched, to the binding generator.
#[derive(Debug, PartialEq, Eq)]
pub struct BindgenLists {
    pub allowlist_function: Vec<String>,
    pub allowlist_type: Vec<String>,
    pub blocklist_function: Vec<String>,
    pub blocklist_type: Vec<String>,
}

/// The description of one firmware project, as read from its settings file.
#[derive(Debug)]
pub struct ConfigSerialize {
    /// Arduino home directory, usually `$HOME/.arduino15`.
    pub arduino_home: String,
    /// Directory of the external libraries, usually `$HOME/Arduino`.
    pub external_libraries_home: String,
    /// Core version, such as `1.8.6`.
    pub core_version: String,
    /// Board variant, such as `eightanaloginputs`.
    pub variant: String,
    /// Toolchain version, such as `7.3.0-atmel3.6.1-arduino7`.
    pub avr_gcc_version: String,
    /// Libraries bundled with the core, by name.
    pub arduino_libraries: Vec<String>,
    /// Libraries under the external home, by name.
    pub external_libraries: Vec<String>,
    /// Preprocessor definitions.
    pub definitions: HashMap<String, String>,
    /// Raw compiler flags.
    pub flags: Vec<String>,
    /// Symbol allow and block lists.
    pub bindgen_lists: BindgenLists,
}

/// The resolved build plan.
#[derive(Debug, PartialEq, Eq)]
pub struct Config {
    /// Include directories, in search order.
    pub includes: Vec<String>,
    /// The compiler binary.
    pub avr_gcc: String,
    /// C++ sources found under the include directories.
    pub cpp_files: Vec<String>,
    /// C sources found under the include directories.
    pub c_files: Vec<String>,
    /// Symbol lists, as given in the description.
    pub bindgen_lists: BindgenLists,
}

/// Why a description could not be resolved; each kind carries the path or
/// message concerned.
#[derive(Debug, PartialEq, Eq)]
pub enum ConfigError {
    /// A path could not be written as text.
    ConvertFailed(String),
    /// The Arduino home could not be written as text.
    ArduinoHomeNoString(String),
    /// The external libraries home could not be written as text.
    ExternalLibrariesHomeNoString(String),
    /// The Arduino home does not exist.
    ArduinoHomeNoExist(String),
    /// The external libraries home does not exist.
    ExternalLibrariesHomeNoExist(String),
    /// The compiler binary does not exist at this path.
    NoAvrGcc(String),
    /// This library directory holds both `src` and `utility`.
    MalformedLib(String),
    /// A directory listing failed.
    Io(String),
    /// A search pattern was rejected.
    GlobPatternError(String),
    /// Walking the matches of a search pattern failed.
    GlobIterationError(String),
}

/// The hand-off of a resolved plan to the compiler and binding generator.
/// Invoking them is left to the caller; the plan is only read here.
#[allow(unused_variables)]
pub fn compile(config: &Config) {
}

} // verus!
