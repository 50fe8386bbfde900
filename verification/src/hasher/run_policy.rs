//! The policy of a run: the ledger, or, for a forced run, the policy that lets
//! everything through.

use vstd::prelude::*;
use crate::hasher::dummy_hasher::DummyHasher;
use crate::hasher::file_hash_helper::{line_break_owed, opened, FileHashHelper};
use crate::traits::traits::{LedgerError, ProcessPolicy};

verus! {

/// The policy that a run goes by.
pub enum RunPolicy {
    /// Each content is processed once: the ledger decides.
    Ledger(FileHashHelper),
    /// Everything is processed: nothing is asked of the ledger, and nothing is
    /// added to it.
    Bypass(DummyHasher),
}

impl RunPolicy {
    /// The policy of a run. A forced run bypasses the ledger, whatever has become of
    /// the stored one. Any other run goes by the ledger on `stored`, the text of the
    /// stored ledger at the start of the run, and cannot be had where that text could
    /// not be read (`None`). A stored ledger that is not there yet is the empty text.
    pub fn for_run(force: bool, stored: Option<&str>) -> (r: Result<RunPolicy, LedgerError>)
        ensures
            r is Err <==> !force && stored is None,
            r matches Err(error) ==> error == LedgerError::StoreUnavailable,
            r matches Ok(policy) ==> {
                &&& policy.wf()
                &&& policy.bypasses() == force
                &&& force ==> policy.unsaved() == Seq::<char>::empty()
                &&& !force ==> policy.known() == opened(stored->0@) && policy.unsaved()
                    == line_break_owed(stored->0@)
            },
    {
        if force {
            Ok(RunPolicy::Bypass(DummyHasher::new()))
        } else {
            match stored {
                Some(text) => Ok(RunPolicy::Ledger(FileHashHelper::new(text))),
                None => Err(LedgerError::StoreUnavailable),
            }
        }
    }
}

impl ProcessPolicy for RunPolicy {
    open spec fn wf(&self) -> bool {
        match self {
            RunPolicy::Ledger(ledger) => ledger.wf(),
            RunPolicy::Bypass(bypass) => bypass.wf(),
        }
    }

    open spec fn bypasses(&self) -> bool {
        match self {
            RunPolicy::Ledger(ledger) => ledger.bypasses(),
            RunPolicy::Bypass(bypass) => bypass.bypasses(),
        }
    }

    open spec fn known(&self) -> Seq<Seq<char>> {
        match self {
            RunPolicy::Ledger(ledger) => ledger.known(),
            RunPolicy::Bypass(bypass) => bypass.known(),
        }
    }

    open spec fn unsaved(&self) -> Seq<char> {
        match self {
            RunPolicy::Ledger(ledger) => ledger.unsaved(),
            RunPolicy::Bypass(bypass) => bypass.unsaved(),
        }
    }

    fn should_process(&mut self, content: &Option<Vec<u8>>) -> (r: Result<bool, LedgerError>) {
        match self {
            RunPolicy::Ledger(ledger) => ledger.should_process(content),
            RunPolicy::Bypass(bypass) => bypass.should_process(content),
        }
    }

    fn take_unsaved(&mut self) -> (r: String) {
        match self {
            RunPolicy::Ledger(ledger) => ledger.take_unsaved(),
            RunPolicy::Bypass(bypass) => bypass.take_unsaved(),
        }
    }
}

} // verus!
