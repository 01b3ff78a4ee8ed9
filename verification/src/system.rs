use vstd::prelude::*;

verus! {

/// Relies on `procfs::process::Process::new` and `is_alive`: looks the
/// process id up in the process filesystem and asks whether it is running
/// and neither a zombie nor dead. The answer depends on the machine's state
/// at the moment of the call, so nothing is promised of it.
#[verifier::external_body]
fn probe_alive(id: i32) -> bool {
    match procfs::process::Process::new(id) {
        Ok(p) => p.is_alive(),
        Err(_) => false,
    }
}

/// The liveness probe: whether `id` currently identifies a running process.
/// The answer is racy by nature (a process id can be reused after the
/// original process exits), so callers treat it as a best-effort safety
/// check, never a correctness guarantee; nothing can be promised of the
/// result.
pub fn is_process_running(id: u32) -> bool {
    if id > 0x7fff_ffff {
        return false;
    }
    probe_alive(id as i32)
}

} // verus!
