use vstd::prelude::*;

verus! {

/// What the command line asks for: the root to scan (the working directory
/// when absent) and how many levels below it repositories are looked for.
#[derive(Debug, Clone)]
pub struct Args {
    pub path: Option<String>,
    pub depth: u8,
}

} // verus!
