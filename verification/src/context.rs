//! A saved processor context.

use crate::engine::{uc_context, Call};
use vstd::prelude::*;

verus! {

/// The state of a processor as the engine saved it: registers and what the
/// engine keeps beside them, no memory. The engine owns the storage; this is
/// its name for it.
#[derive(Debug)]
pub struct Context {
    /// The engine's name for the context, zero once it is given up.
    pub context: uc_context,
}

impl Context {
    /// Whether there is a context behind this value.
    #[must_use]
    #[verifier::allow_in_spec]
    pub fn is_initialized(&self) -> bool
        returns
            self.context != 0,
    {
        self.context != 0
    }

    /// Gives the context up: the call that frees it, where there is one to
    /// free. Afterwards there is none, so giving up twice frees once.
    pub fn release(&mut self) -> (call: Option<Call>)
        ensures
            !final(self).is_initialized(),
            old(self).is_initialized() ==> call == Some(
                Call::ContextFree { context: old(self).context },
            ),
            !old(self).is_initialized() ==> call.is_none(),
    {
        let call = if self.is_initialized() {
            Some(Call::ContextFree { context: self.context })
        } else {
            None
        };
        self.context = 0;
        call
    }
}

} // verus!
