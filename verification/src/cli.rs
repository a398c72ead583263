use vstd::prelude::*;

verus! {

/// The two validated command-line inputs the pipeline is run over: the
/// source root to enumerate and the destination root to archive into.
pub struct Cli {
    pub input: String,
    pub output: String,
}

} // verus!
