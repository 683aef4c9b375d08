//! The binding-context state machine.  A context starts as the set of still
//! unresolved requirements for one pipeline assembly — `Pending(set)` — and
//! each successful bind consumes exactly one name.  `Ready` is the unique
//! state with an empty set; only then may the assembly run, and running
//! consumes the context.  Nothing restores a consumed name: starting over
//! takes a fresh context derived from the original declaration.

use vstd::prelude::*;
use crate::errors::{BindingError, ReadinessError};
use crate::nameset::{spec_remove, NameSet};

verus! {

/// The unresolved binding requirements of one pipeline assembly.
#[derive(Debug)]
pub struct BindingContext {
    pending: NameSet,
}

impl View for BindingContext {
    type V = Seq<Seq<char>>;

    closed spec fn view(&self) -> Seq<Seq<char>> {
        self.pending@
    }
}

impl BindingContext {
    /// The context's invariant: its pending set is well-formed.
    pub closed spec fn wf(&self) -> bool {
        self.pending.wf()
    }

    /// The context is ready to run exactly when no requirement is pending.
    pub open spec fn is_ready_spec(&self) -> bool {
        self@.len() == 0
    }

    /// Open a context for one assembly from its combined required-input set.
    pub fn new(required: NameSet) -> (r: BindingContext)
        requires
            required.wf(),
        ensures
            r@ == required@,
            r.wf(),
    {
        BindingContext { pending: required }
    }

    /// Consume one requirement.  The name must be a still-pending
    /// requirement; an unknown or already-consumed name rejects the whole
    /// assembly, it is not retried.
    pub fn bind(self, name: &str) -> (r: Result<BindingContext, BindingError>)
        requires
            self.wf(),
        ensures
            match r {
                Ok(c) => {
                    &&& self@.contains(name@)
                    &&& c@ == spec_remove(self@, name@)
                    &&& !c@.contains(name@)
                    &&& c.wf()
                },
                Err(e) => {
                    &&& !self@.contains(name@)
                    &&& e matches BindingError::UnknownTarget { name: n } && n@ == name@
                },
            },
    {
        let (next, found) = self.pending.remove(name);
        if found {
            Ok(BindingContext { pending: next })
        } else {
            Err(BindingError::UnknownTarget { name: name.to_owned() })
        }
    }

    /// Whether every requirement has been bound.
    pub fn is_ready(&self) -> (r: bool)
        ensures
            r == self.is_ready_spec(),
    {
        self.pending.is_empty()
    }

    /// The terminal transition: permit execution.  It succeeds exactly on a
    /// ready context and consumes it either way; a pending context yields a
    /// readiness error listing what is still unbound.
    pub fn run(self) -> (r: Result<(), ReadinessError>)
        ensures
            match r {
                Ok(()) => self.is_ready_spec(),
                Err(e) => {
                    &&& !self.is_ready_spec()
                    &&& e.missing.deep_view() == self@
                },
            },
    {
        if self.pending.is_empty() {
            Ok(())
        } else {
            Err(ReadinessError { missing: self.pending.into_names() })
        }
    }
}

} // verus!
