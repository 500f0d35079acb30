//! Driver state for performing a plan's external invocations.
//!
//! The handler decides; an execution shell performs. [`Execution`] keeps the
//! shell honest about sequencing: it hands out the plan's commands one at a
//! time, in order, and once the shell reports a failure it hands out nothing
//! further, so a failed provisioning step can never be followed by a
//! transfer. The shell performs each command with the real external
//! capability and reports the outcome back; the hosting environment
//! guarantees that an aborted invocation leaves no partial ledger mutation.
use vstd::prelude::*;

use crate::processor::safe_transfer::{Command, TransferPlan};

verus! {

/// Progress of one shell run through a plan's commands: how many have been
/// issued, and whether a reported failure has aborted the run.
pub struct Execution {
    commands: Vec<Command>,
    issued: usize,
    aborted: bool,
}

impl Execution {
    /// The commands of the plan under execution, in order.
    pub closed spec fn spec_commands(self) -> Seq<Command> {
        self.commands@
    }

    /// How many commands have been issued so far.
    pub closed spec fn spec_issued(self) -> int {
        self.issued as int
    }

    /// Whether a reported failure has aborted the run.
    pub closed spec fn spec_aborted(self) -> bool {
        self.aborted
    }

    /// Starts a run of the plan: nothing issued, nothing failed.
    pub fn begin(plan: &TransferPlan) -> (s: Self)
        ensures
            s.spec_commands() == plan.spec_commands(),
            s.spec_issued() == 0,
            !s.spec_aborted(),
    {
        Execution { commands: plan.commands(), issued: 0, aborted: false }
    }

    /// The next capability invocation the shell must perform: the first
    /// command not yet issued. `None` once every command has been issued —
    /// or as soon as any failure was reported, whatever commands remain.
    pub fn next_command(&self) -> (c: Option<Command>)
        ensures
            c is Some <==> !self.spec_aborted() && self.spec_issued()
                < self.spec_commands().len(),
            c is Some ==> c->0 == self.spec_commands()[self.spec_issued()],
    {
        if self.aborted {
            None
        } else if self.issued < self.commands.len() {
            Some(self.commands[self.issued])
        } else {
            None
        }
    }

    /// The shell reports that the command it was last handed succeeded: the
    /// run advances to the next command and nothing else changes.
    pub fn report_success(&mut self)
        ensures
            final(self).spec_commands() == old(self).spec_commands(),
            final(self).spec_aborted() == old(self).spec_aborted(),
            old(self).spec_issued() < old(self).spec_commands().len()
                ==> final(self).spec_issued() == old(self).spec_issued() + 1,
            old(self).spec_issued() >= old(self).spec_commands().len()
                ==> final(self).spec_issued() == old(self).spec_issued(),
    {
        if self.issued < self.commands.len() {
            self.issued = self.issued + 1;
        }
    }

    /// The shell reports that an invocation failed: the run aborts. No
    /// method ever clears the abort, so `next_command` stays `None` and no
    /// later command — in particular no transfer after a failed
    /// provisioning — can be issued.
    pub fn report_failure(&mut self)
        ensures
            final(self).spec_commands() == old(self).spec_commands(),
            final(self).spec_issued() == old(self).spec_issued(),
            final(self).spec_aborted(),
    {
        self.aborted = true;
    }

    /// Whether the run completed: every command issued and none failed.
    pub fn completed(&self) -> (b: bool)
        ensures
            b == (!self.spec_aborted() && self.spec_issued() == self.spec_commands().len()),
    {
        !self.aborted && self.issued == self.commands.len()
    }
}

} // verus!
