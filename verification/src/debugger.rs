use vstd::prelude::*;
use crate::fault::Fault;
use crate::n64::N64;

verus! {

/// Number of clock phases that one debugger run covers.
pub const DEBUG_RUN_LENGTH: u64 = 20;

/// A front end that runs the machine a fixed number of clock phases at a
/// time.
#[derive(Debug)]
pub struct Debugger {
    pub n64: N64,
}

impl Debugger {
    /// A debugger around a machine.
    pub fn new(n64: N64) -> (d: Debugger)
        ensures
            d.n64 == n64,
    {
        Debugger { n64: n64 }
    }

    /// Runs the machine for `DEBUG_RUN_LENGTH` clock phases, or up to the
    /// first fault, which is returned.
    pub fn run(&mut self) -> (r: Result<(), Fault>)
        requires
            old(self).n64.cpu@.wf(),
        ensures
            final(self).n64.cpu@.wf(),
            final(self).n64.cpu@ == old(self).n64.cpu@.run(DEBUG_RUN_LENGTH as nat),
            r == match old(self).n64.cpu@.run_fault(DEBUG_RUN_LENGTH as nat) {
                Some(f) => Err::<(), Fault>(f),
                None => Ok::<(), Fault>(()),
            },
    {
        self.n64.run(DEBUG_RUN_LENGTH)
    }
}

} // verus!
