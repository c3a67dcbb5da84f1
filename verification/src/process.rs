//! Presence of the game client among the processes of the machine.

use crate::extract::ExtractionError;
use vstd::prelude::*;

verus! {

/// Executable name of the game client.
pub const TARGET_PROCESS: &'static str = "LeagueClientUx.exe";

/// Whether one of `names` is exactly the target's executable name.
pub open spec fn target_present(names: Seq<String>) -> bool {
    exists|i: int| 0 <= i < names.len() && (#[trigger] names[i])@ == TARGET_PROCESS@
}

/// Tells whether the game client runs, from the executable names of the
/// processes that were enumerated. A name counts only where it equals the
/// target's name in full.
pub fn is_lol_running(process_names: &Vec<String>) -> (running: bool)
    ensures
        running == target_present(process_names@),
{
    let target = TARGET_PROCESS.to_owned();
    let mut at: usize = 0;
    while at < process_names.len()
        invariant
            at <= process_names.len(),
            target@ == TARGET_PROCESS@,
            forall|i: int| 0 <= i < at ==> (#[trigger] process_names@[i])@ != TARGET_PROCESS@,
        decreases process_names.len() - at,
    {
        if process_names[at] == target {
            return true;
        }
        at += 1;
    }
    false
}

/// First step of an extraction: the target must be among the processes.
pub fn locate_target(process_names: &Vec<String>) -> (located: Result<(), ExtractionError>)
    ensures
        target_present(process_names@) ==> located == Ok::<(), ExtractionError>(()),
        !target_present(process_names@) ==> located == Err::<(), ExtractionError>(
            ExtractionError::ProcessNotFound,
        ),
{
    if is_lol_running(process_names) {
        Ok(())
    } else {
        Err(ExtractionError::ProcessNotFound)
    }
}

} // verus!
