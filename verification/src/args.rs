use vstd::prelude::*;

verus! {

/// What the front end was asked to do: print a disassembly listing, or run
/// the program.
#[derive(Clone, Copy, Debug, PartialEq, Eq, Structural)]
pub enum AppMode {
    Disassemble,
    Execute,
}

/// The parsed command line: the mode, the executable to load, the guest's
/// argument vector and environment, and whether tracing is on.
pub struct ArgsConfig {
    pub mode: AppMode,
    pub target: String,
    pub argv: Vec<String>,
    pub envs: Vec<String>,
    pub debug: bool,
}

} // verus!
