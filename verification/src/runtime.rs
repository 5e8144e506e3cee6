//! The handle of one instance of the engine.

use crate::error::{Error, ErrorView};
use vstd::prelude::*;

verus! {

/// One instance of the engine, from which contexts are made. It holds the
/// native handle of the instance, which is never null.
#[derive(Debug, PartialEq, Eq)]
pub struct Runtime {
    rt: usize,
}

impl Runtime {
    #[verifier::type_invariant]
    spec fn well_formed(self) -> bool {
        self.rt != 0
    }

    /// The native handle of the instance.
    pub closed spec fn handle_spec(&self) -> usize {
        self.rt
    }

    /// The runtime around the handle that the engine returned for a new
    /// instance; a null handle means that the engine could not allocate one.
    pub fn new(raw: usize) -> (r: Result<Runtime, Error>)
        ensures
            match r {
                Ok(runtime) => raw != 0 && runtime.handle_spec() == raw,
                Err(e) => raw == 0 && e@ == ErrorView::Allocation,
            },
    {
        if raw == 0 {
            Err(Error::Allocation)
        } else {
            Ok(Runtime { rt: raw })
        }
    }

    /// The native handle of the instance.
    #[verifier::when_used_as_spec(handle_spec)]
    pub fn handle(&self) -> (rt: usize)
        ensures
            rt == self.handle_spec(),
            rt != 0,
    {
        proof {
            use_type_invariant(self);
        }
        self.rt
    }
}

} // verus!
