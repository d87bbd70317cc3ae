//! The shapes of the command line: what each subcommand is given.

use vstd::prelude::*;

verus! {

/// Where a project comes from: a description file, or one input file that
/// stands for a whole project. Exactly one of the two is given.
pub struct Source {
    pub config_file: Option<String>,
    pub input_path: Option<String>,
}

/// Whether exactly one of the two ways to name a project is used.
pub open spec fn is_selection(s: Source) -> bool {
    s.config_file is Some != s.input_path is Some
}

/// Arguments of `build`.
pub struct BuildGroup {
    pub source: Source,
    /// Where to write the module, in place of the described output file.
    pub output_path: Option<String>,
}

/// Arguments of `run`.
pub struct RunGroup {
    pub source: Source,
    /// Arguments handed to the running program.
    pub parameters: Option<Vec<String>>,
}

/// The subcommands.
pub enum Commands {
    /// Compile each source file alone, to report the first one that fails.
    Check(Source),
    /// Compile and link the program.
    Build(BuildGroup),
    /// Compile, link, and execute the program.
    Run(RunGroup),
    /// Write the documentation page of the program.
    Docs(Source),
    /// Print the version.
    Version,
}

} // verus!
