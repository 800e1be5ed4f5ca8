//! The scoped visitor of one mark pass.

use vstd::prelude::*;
use crate::handles::{Ctx, Value, value_report};

verus! {

/// A visitor bound to one mark pass of one runtime.
///
/// The collector constructs one tracer per pass from the raw pair it owns —
/// a runtime handle and a mark callback — and passes it into the
/// [`crate::trace::Trace`] implementation of every live composite object.
/// Each report made through the tracer is forwarded to the bound callback;
/// the tracer records that forwarded sequence, as the native pointers
/// reported, in order, and that sequence is its view.
///
/// A tracer is meaningful only within the single pass it was built for: the
/// collector must not keep it across passes, and implementations receiving
/// one must not store it.
pub struct Tracer {
    rt: u64,
    mark_fn: Option<u64>,
    reported: Vec<u64>,
}

impl View for Tracer {
    type V = Seq<u64>;

    closed spec fn view(&self) -> Seq<u64> {
        self.reported@
    }
}

impl Tracer {
    /// A tracer is well formed when a mark callback is bound.  One built
    /// without a callback comes only from misuse of [`Tracer::from_ffi`]
    /// outside a genuine mark pass; reporting through it is a precondition
    /// violation, never something a normal `Trace` implementation can cause.
    pub closed spec fn wf(self) -> bool {
        self.mark_fn is Some
    }

    /// The handle of the runtime this tracer is bound to.
    pub closed spec fn runtime(self) -> u64 {
        self.rt
    }

    /// Create the tracer of a mark pass from the raw pair the collector
    /// supplies: its runtime handle and its mark callback, if one is
    /// configured.  The caller must ensure both outlive the pass and that
    /// the tracer does not outlive it either.
    pub fn from_ffi(rt: u64, mark_fn: Option<u64>) -> (t: Tracer)
        ensures
            t.runtime() == rt,
            t.wf() <==> mark_fn is Some,
            t@ == Seq::<u64>::empty(),
    {
        Tracer { rt, mark_fn, reported: Vec::new() }
    }

    /// Mark a value as reachable from the object currently being traced.
    ///
    /// If the engine reference-counts the value, its native pointer is
    /// forwarded to the bound callback; otherwise the call is a no-op.
    /// Marking the same value any number of times within a pass is
    /// accepted: the collector deduplicates, not this library.
    pub fn mark(&mut self, value: &Value)
        requires
            old(self).wf(),
        ensures
            final(self).wf(),
            final(self).runtime() == old(self).runtime(),
            final(self)@ == old(self)@ + value_report(*value),
    {
        if value.has_ref_count {
            self.reported.push(value.ptr);
            proof {
                assert(self@ =~= old(self)@ + value_report(*value));
            }
        } else {
            proof {
                assert(self@ =~= old(self)@ + value_report(*value));
            }
        }
    }

    /// Mark an execution context as reachable from the object currently
    /// being traced.  Contexts are always reference-counted, so the report
    /// is forwarded unconditionally.
    pub fn mark_ctx(&mut self, ctx: &Ctx)
        requires
            old(self).wf(),
        ensures
            final(self).wf(),
            final(self).runtime() == old(self).runtime(),
            final(self)@ == old(self)@ + seq![ctx.ptr],
    {
        self.reported.push(ctx.ptr);
        proof {
            assert(self@ =~= old(self)@ + seq![ctx.ptr]);
        }
    }

    /// The reports forwarded so far in this pass, in order.
    pub fn reported(&self) -> (r: &Vec<u64>)
        ensures
            r@ == self@,
    {
        &self.reported
    }
}

} // verus!
