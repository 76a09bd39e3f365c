use vstd::prelude::*;

verus! {

/// The command line of the scanner program: one subcommand.
#[derive(Clone, Debug)]
pub struct Args {
    pub cmd: Commands,
}

/// What the program is asked to do.
#[derive(Clone, Debug)]
pub enum Commands {
    /// Scan the named file and print its tokens.
    Tokenize { filename: String },
}

} // verus!
