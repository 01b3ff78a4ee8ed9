use vstd::prelude::*;

verus! {

/// The first wire shape of a process record.
#[derive(Debug, Clone, PartialEq, Eq)]
pub struct Process {
    pub directory: String,
    pub stdout: String,
    pub stderr: String,
    pub process_id: Option<u32>,
}

} // verus!
