//! The tracing capability and its structural implementations.

use vstd::prelude::*;
use std::collections::VecDeque;
use std::rc::Rc;
use std::sync::Arc;
use crate::handles::{Atom, BigInt, Ctx, Exception, Function, JsString, Module, Object, Value};
use crate::handles::{Array, Symbol, value_report};
use crate::tracer::Tracer;

verus! {

/// The capability a type implements to take part in the engine's mark
/// passes.
///
/// `trace` must report every managed value reachable from `self` in one
/// level of indirection; nested composites are reported by delegating to
/// their own `trace` through the same tracer.  The only observable effect is
/// the sequence of reports, pinned down by the spec function [`Trace::reports`]:
/// after the call the tracer's log has grown by exactly `self.reports()`.
///
/// Failing to report a reachable value cannot corrupt memory — reference
/// counting, not this library, governs deallocation — but it leaves cycles
/// through that value uncollectable.
pub trait Trace {
    /// The sequence of native pointers `self` reports, in order.
    spec fn reports(&self) -> Seq<u64>;

    /// Report every managed value reachable from `self` in one level of
    /// indirection through `tracer`.
    fn trace(&self, tracer: &mut Tracer)
        requires
            old(tracer).wf(),
        ensures
            final(tracer).wf(),
            final(tracer).runtime() == old(tracer).runtime(),
            final(tracer)@ == old(tracer)@ + self.reports(),
    ;
}

impl Trace for Value {
    /// A managed value reports itself when the engine reference-counts it,
    /// and nothing otherwise.
    open spec fn reports(&self) -> Seq<u64> {
        value_report(*self)
    }

    fn trace(&self, tracer: &mut Tracer) {
        tracer.mark(self);
    }
}

impl Trace for Ctx {
    /// A context reports itself, unconditionally.
    open spec fn reports(&self) -> Seq<u64> {
        seq![self.ptr]
    }

    fn trace(&self, tracer: &mut Tracer) {
        tracer.mark_ctx(self);
    }
}

impl Trace for Object {
    /// An object reports exactly one reference: itself.
    open spec fn reports(&self) -> Seq<u64> {
        seq![self.ptr]
    }

    fn trace(&self, tracer: &mut Tracer) {
        let v = self.as_value();
        v.trace(tracer);
    }
}

/// Concatenating no reports onto a log leaves it unchanged; the form every
/// no-op `trace` needs its postcondition in.
proof fn lemma_reports_empty(s: Seq<u64>)
    ensures
        s + Seq::<u64>::empty() == s,
{
    assert(s + Seq::<u64>::empty() =~= s);
}

impl Trace for u8 {
    /// A leaf kind: no outgoing managed reference is possible.
    open spec fn reports(&self) -> Seq<u64> {
        Seq::empty()
    }

    fn trace(&self, tracer: &mut Tracer) {
        proof {
            lemma_reports_empty(tracer@);
        }
    }
}

impl Trace for u16 {
    /// A leaf kind: no outgoing managed reference is possible.
    open spec fn reports(&self) -> Seq<u64> {
        Seq::empty()
    }

    fn trace(&self, tracer: &mut Tracer) {
        proof {
            lemma_reports_empty(tracer@);
        }
    }
}

impl Trace for u32 {
    /// A leaf kind: no outgoing managed reference is possible.
    open spec fn reports(&self) -> Seq<u64> {
        Seq::empty()
    }

    fn trace(&self, tracer: &mut Tracer) {
        proof {
            lemma_reports_empty(tracer@);
        }
    }
}

impl Trace for u64 {
    /// A leaf kind: no outgoing managed reference is possible.
    open spec fn reports(&self) -> Seq<u64> {
        Seq::empty()
    }

    fn trace(&self, tracer: &mut Tracer) {
        proof {
            lemma_reports_empty(tracer@);
        }
    }
}

impl Trace for usize {
    /// A leaf kind: no outgoing managed reference is possible.
    open spec fn reports(&self) -> Seq<u64> {
        Seq::empty()
    }

    fn trace(&self, tracer: &mut Tracer) {
        proof {
            lemma_reports_empty(tracer@);
        }
    }
}

impl Trace for i8 {
    /// A leaf kind: no outgoing managed reference is possible.
    open spec fn reports(&self) -> Seq<u64> {
        Seq::empty()
    }

    fn trace(&self, tracer: &mut Tracer) {
        proof {
            lemma_reports_empty(tracer@);
        }
    }
}

impl Trace for i16 {
    /// A leaf kind: no outgoing managed reference is possible.
    open spec fn reports(&self) -> Seq<u64> {
        Seq::empty()
    }

    fn trace(&self, tracer: &mut Tracer) {
        proof {
            lemma_reports_empty(tracer@);
        }
    }
}

impl Trace for i32 {
    /// A leaf kind: no outgoing managed reference is possible.
    open spec fn reports(&self) -> Seq<u64> {
        Seq::empty()
    }

    fn trace(&self, tracer: &mut Tracer) {
        proof {
            lemma_reports_empty(tracer@);
        }
    }
}

impl Trace for i64 {
    /// A leaf kind: no outgoing managed reference is possible.
    open spec fn reports(&self) -> Seq<u64> {
        Seq::empty()
    }

    fn trace(&self, tracer: &mut Tracer) {
        proof {
            lemma_reports_empty(tracer@);
        }
    }
}

impl Trace for isize {
    /// A leaf kind: no outgoing managed reference is possible.
    open spec fn reports(&self) -> Seq<u64> {
        Seq::empty()
    }

    fn trace(&self, tracer: &mut Tracer) {
        proof {
            lemma_reports_empty(tracer@);
        }
    }
}

impl Trace for bool {
    /// A leaf kind: no outgoing managed reference is possible.
    open spec fn reports(&self) -> Seq<u64> {
        Seq::empty()
    }

    fn trace(&self, tracer: &mut Tracer) {
        proof {
            lemma_reports_empty(tracer@);
        }
    }
}

impl Trace for char {
    /// A leaf kind: no outgoing managed reference is possible.
    open spec fn reports(&self) -> Seq<u64> {
        Seq::empty()
    }

    fn trace(&self, tracer: &mut Tracer) {
        proof {
            lemma_reports_empty(tracer@);
        }
    }
}

impl Trace for String {
    /// A leaf kind: no outgoing managed reference is possible.
    open spec fn reports(&self) -> Seq<u64> {
        Seq::empty()
    }

    fn trace(&self, tracer: &mut Tracer) {
        proof {
            lemma_reports_empty(tracer@);
        }
    }
}

impl Trace for Atom {
    /// A leaf kind: no outgoing managed reference is possible.
    open spec fn reports(&self) -> Seq<u64> {
        Seq::empty()
    }

    fn trace(&self, tracer: &mut Tracer) {
        proof {
            lemma_reports_empty(tracer@);
        }
    }
}

impl Trace for Module {
    /// A leaf kind: no outgoing managed reference is possible.
    open spec fn reports(&self) -> Seq<u64> {
        Seq::empty()
    }

    fn trace(&self, tracer: &mut Tracer) {
        proof {
            lemma_reports_empty(tracer@);
        }
    }
}

impl Trace for Array {
    /// A forwarding kind reports exactly one reference: itself, under its
    /// generic managed-value view.
    open spec fn reports(&self) -> Seq<u64> {
        seq![self.ptr]
    }

    fn trace(&self, tracer: &mut Tracer) {
        let v = self.as_value();
        v.trace(tracer);
    }
}

impl Trace for Function {
    /// A forwarding kind reports exactly one reference: itself, under its
    /// generic managed-value view.
    open spec fn reports(&self) -> Seq<u64> {
        seq![self.ptr]
    }

    fn trace(&self, tracer: &mut Tracer) {
        let v = self.as_value();
        v.trace(tracer);
    }
}

impl Trace for BigInt {
    /// A forwarding kind reports exactly one reference: itself, under its
    /// generic managed-value view.
    open spec fn reports(&self) -> Seq<u64> {
        seq![self.ptr]
    }

    fn trace(&self, tracer: &mut Tracer) {
        let v = self.as_value();
        v.trace(tracer);
    }
}

impl Trace for Symbol {
    /// A forwarding kind reports exactly one reference: itself, under its
    /// generic managed-value view.
    open spec fn reports(&self) -> Seq<u64> {
        seq![self.ptr]
    }

    fn trace(&self, tracer: &mut Tracer) {
        let v = self.as_value();
        v.trace(tracer);
    }
}

impl Trace for Exception {
    /// A forwarding kind reports exactly one reference: itself, under its
    /// generic managed-value view.
    open spec fn reports(&self) -> Seq<u64> {
        seq![self.ptr]
    }

    fn trace(&self, tracer: &mut Tracer) {
        let v = self.as_value();
        v.trace(tracer);
    }
}

impl Trace for JsString {
    /// A forwarding kind reports exactly one reference: itself, under its
    /// generic managed-value view.
    open spec fn reports(&self) -> Seq<u64> {
        seq![self.ptr]
    }

    fn trace(&self, tracer: &mut Tracer) {
        let v = self.as_value();
        v.trace(tracer);
    }
}

impl<T: Trace> Trace for Box<T> {
    /// An owning wrapper is transparent to reachability: it reports exactly
    /// what the wrapped value reports.
    open spec fn reports(&self) -> Seq<u64> {
        (**self).reports()
    }

    fn trace(&self, tracer: &mut Tracer) {
        let inner: &T = &**self;
        inner.trace(tracer);
    }
}

impl<T: Trace> Trace for Rc<T> {
    /// An owning wrapper is transparent to reachability: it reports exactly
    /// what the wrapped value reports.
    open spec fn reports(&self) -> Seq<u64> {
        (**self).reports()
    }

    fn trace(&self, tracer: &mut Tracer) {
        let inner: &T = &**self;
        inner.trace(tracer);
    }
}

impl<T: Trace> Trace for Arc<T> {
    /// An owning wrapper is transparent to reachability: it reports exactly
    /// what the wrapped value reports.
    open spec fn reports(&self) -> Seq<u64> {
        (**self).reports()
    }

    fn trace(&self, tracer: &mut Tracer) {
        let inner: &T = &**self;
        inner.trace(tracer);
    }
}

impl Trace for () {
    /// The empty tuple has no components and reports nothing.
    open spec fn reports(&self) -> Seq<u64> {
        Seq::empty()
    }

    fn trace(&self, tracer: &mut Tracer) {
        proof {
            lemma_reports_empty(tracer@);
        }
    }
}

impl<A: Trace> Trace for (A,) {
    /// A tuple reports each component, in declared left-to-right order.
    open spec fn reports(&self) -> Seq<u64> {
        self.0.reports()
    }

    fn trace(&self, tracer: &mut Tracer) {
        let ghost pre: Seq<u64> = tracer@;
        self.0.trace(tracer);
        proof {
            assert(tracer@ =~= pre + self.reports());
        }
    }
}

impl<A: Trace, B: Trace> Trace for (A, B) {
    /// A tuple reports each component, in declared left-to-right order.
    open spec fn reports(&self) -> Seq<u64> {
        self.0.reports() + self.1.reports()
    }

    fn trace(&self, tracer: &mut Tracer) {
        let ghost pre: Seq<u64> = tracer@;
        self.0.trace(tracer);
        self.1.trace(tracer);
        proof {
            assert(tracer@ =~= pre + self.reports());
        }
    }
}

impl<A: Trace, B: Trace, C: Trace> Trace for (A, B, C) {
    /// A tuple reports each component, in declared left-to-right order.
    open spec fn reports(&self) -> Seq<u64> {
        self.0.reports() + self.1.reports() + self.2.reports()
    }

    fn trace(&self, tracer: &mut Tracer) {
        let ghost pre: Seq<u64> = tracer@;
        self.0.trace(tracer);
        self.1.trace(tracer);
        self.2.trace(tracer);
        proof {
            assert(tracer@ =~= pre + self.reports());
        }
    }
}

impl<A: Trace, B: Trace, C: Trace, D: Trace> Trace for (A, B, C, D) {
    /// A tuple reports each component, in declared left-to-right order.
    open spec fn reports(&self) -> Seq<u64> {
        self.0.reports() + self.1.reports() + self.2.reports() + self.3.reports()
    }

    fn trace(&self, tracer: &mut Tracer) {
        let ghost pre: Seq<u64> = tracer@;
        self.0.trace(tracer);
        self.1.trace(tracer);
        self.2.trace(tracer);
        self.3.trace(tracer);
        proof {
            assert(tracer@ =~= pre + self.reports());
        }
    }
}

impl<A: Trace, B: Trace, C: Trace, D: Trace, E: Trace> Trace for (A, B, C, D, E) {
    /// A tuple reports each component, in declared left-to-right order.
    open spec fn reports(&self) -> Seq<u64> {
        self.0.reports() + self.1.reports() + self.2.reports() + self.3.reports() + self.4.reports()
    }

    fn trace(&self, tracer: &mut Tracer) {
        let ghost pre: Seq<u64> = tracer@;
        self.0.trace(tracer);
        self.1.trace(tracer);
        self.2.trace(tracer);
        self.3.trace(tracer);
        self.4.trace(tracer);
        proof {
            assert(tracer@ =~= pre + self.reports());
        }
    }
}

impl<A: Trace, B: Trace, C: Trace, D: Trace, E: Trace, F: Trace> Trace for (A, B, C, D, E, F) {
    /// A tuple reports each component, in declared left-to-right order.
    open spec fn reports(&self) -> Seq<u64> {
        self.0.reports() + self.1.reports() + self.2.reports() + self.3.reports() + self.4.reports() + self.5.reports()
    }

    fn trace(&self, tracer: &mut Tracer) {
        let ghost pre: Seq<u64> = tracer@;
        self.0.trace(tracer);
        self.1.trace(tracer);
        self.2.trace(tracer);
        self.3.trace(tracer);
        self.4.trace(tracer);
        self.5.trace(tracer);
        proof {
            assert(tracer@ =~= pre + self.reports());
        }
    }
}

impl<A: Trace, B: Trace, C: Trace, D: Trace, E: Trace, F: Trace, G: Trace> Trace for (A, B, C, D, E, F, G) {
    /// A tuple reports each component, in declared left-to-right order.
    open spec fn reports(&self) -> Seq<u64> {
        self.0.reports() + self.1.reports() + self.2.reports() + self.3.reports() + self.4.reports() + self.5.reports() + self.6.reports()
    }

    fn trace(&self, tracer: &mut Tracer) {
        let ghost pre: Seq<u64> = tracer@;
        self.0.trace(tracer);
        self.1.trace(tracer);
        self.2.trace(tracer);
        self.3.trace(tracer);
        self.4.trace(tracer);
        self.5.trace(tracer);
        self.6.trace(tracer);
        proof {
            assert(tracer@ =~= pre + self.reports());
        }
    }
}

impl<A: Trace, B: Trace, C: Trace, D: Trace, E: Trace, F: Trace, G: Trace, H: Trace> Trace for (A, B, C, D, E, F, G, H) {
    /// A tuple reports each component, in declared left-to-right order.
    open spec fn reports(&self) -> Seq<u64> {
        self.0.reports() + self.1.reports() + self.2.reports() + self.3.reports() + self.4.reports() + self.5.reports() + self.6.reports() + self.7.reports()
    }

    fn trace(&self, tracer: &mut Tracer) {
        let ghost pre: Seq<u64> = tracer@;
        self.0.trace(tracer);
        self.1.trace(tracer);
        self.2.trace(tracer);
        self.3.trace(tracer);
        self.4.trace(tracer);
        self.5.trace(tracer);
        self.6.trace(tracer);
        self.7.trace(tracer);
        proof {
            assert(tracer@ =~= pre + self.reports());
        }
    }
}

impl<A: Trace, B: Trace, C: Trace, D: Trace, E: Trace, F: Trace, G: Trace, H: Trace, I: Trace> Trace for (A, B, C, D, E, F, G, H, I) {
    /// A tuple reports each component, in declared left-to-right order.
    open spec fn reports(&self) -> Seq<u64> {
        self.0.reports() + self.1.reports() + self.2.reports() + self.3.reports() + self.4.reports() + self.5.reports() + self.6.reports() + self.7.reports() + self.8.reports()
    }

    fn trace(&self, tracer: &mut Tracer) {
        let ghost pre: Seq<u64> = tracer@;
        self.0.trace(tracer);
        self.1.trace(tracer);
        self.2.trace(tracer);
        self.3.trace(tracer);
        self.4.trace(tracer);
        self.5.trace(tracer);
        self.6.trace(tracer);
        self.7.trace(tracer);
        self.8.trace(tracer);
        proof {
            assert(tracer@ =~= pre + self.reports());
        }
    }
}

impl<A: Trace, B: Trace, C: Trace, D: Trace, E: Trace, F: Trace, G: Trace, H: Trace, I: Trace, J: Trace> Trace for (A, B, C, D, E, F, G, H, I, J) {
    /// A tuple reports each component, in declared left-to-right order.
    open spec fn reports(&self) -> Seq<u64> {
        self.0.reports() + self.1.reports() + self.2.reports() + self.3.reports() + self.4.reports() + self.5.reports() + self.6.reports() + self.7.reports() + self.8.reports() + self.9.reports()
    }

    fn trace(&self, tracer: &mut Tracer) {
        let ghost pre: Seq<u64> = tracer@;
        self.0.trace(tracer);
        self.1.trace(tracer);
        self.2.trace(tracer);
        self.3.trace(tracer);
        self.4.trace(tracer);
        self.5.trace(tracer);
        self.6.trace(tracer);
        self.7.trace(tracer);
        self.8.trace(tracer);
        self.9.trace(tracer);
        proof {
            assert(tracer@ =~= pre + self.reports());
        }
    }
}

impl<A: Trace, B: Trace, C: Trace, D: Trace, E: Trace, F: Trace, G: Trace, H: Trace, I: Trace, J: Trace, K: Trace> Trace for (A, B, C, D, E, F, G, H, I, J, K) {
    /// A tuple reports each component, in declared left-to-right order.
    open spec fn reports(&self) -> Seq<u64> {
        self.0.reports() + self.1.reports() + self.2.reports() + self.3.reports() + self.4.reports() + self.5.reports() + self.6.reports() + self.7.reports() + self.8.reports() + self.9.reports() + self.10.reports()
    }

    fn trace(&self, tracer: &mut Tracer) {
        let ghost pre: Seq<u64> = tracer@;
        self.0.trace(tracer);
        self.1.trace(tracer);
        self.2.trace(tracer);
        self.3.trace(tracer);
        self.4.trace(tracer);
        self.5.trace(tracer);
        self.6.trace(tracer);
        self.7.trace(tracer);
        self.8.trace(tracer);
        self.9.trace(tracer);
        self.10.trace(tracer);
        proof {
            assert(tracer@ =~= pre + self.reports());
        }
    }
}

impl<A: Trace, B: Trace, C: Trace, D: Trace, E: Trace, F: Trace, G: Trace, H: Trace, I: Trace, J: Trace, K: Trace, L: Trace> Trace for (A, B, C, D, E, F, G, H, I, J, K, L) {
    /// A tuple reports each component, in declared left-to-right order.
    open spec fn reports(&self) -> Seq<u64> {
        self.0.reports() + self.1.reports() + self.2.reports() + self.3.reports() + self.4.reports() + self.5.reports() + self.6.reports() + self.7.reports() + self.8.reports() + self.9.reports() + self.10.reports() + self.11.reports()
    }

    fn trace(&self, tracer: &mut Tracer) {
        let ghost pre: Seq<u64> = tracer@;
        self.0.trace(tracer);
        self.1.trace(tracer);
        self.2.trace(tracer);
        self.3.trace(tracer);
        self.4.trace(tracer);
        self.5.trace(tracer);
        self.6.trace(tracer);
        self.7.trace(tracer);
        self.8.trace(tracer);
        self.9.trace(tracer);
        self.10.trace(tracer);
        self.11.trace(tracer);
        proof {
            assert(tracer@ =~= pre + self.reports());
        }
    }
}

impl<A: Trace, B: Trace, C: Trace, D: Trace, E: Trace, F: Trace, G: Trace, H: Trace, I: Trace, J: Trace, K: Trace, L: Trace, M: Trace> Trace for (A, B, C, D, E, F, G, H, I, J, K, L, M) {
    /// A tuple reports each component, in declared left-to-right order.
    open spec fn reports(&self) -> Seq<u64> {
        self.0.reports() + self.1.reports() + self.2.reports() + self.3.reports() + self.4.reports() + self.5.reports() + self.6.reports() + self.7.reports() + self.8.reports() + self.9.reports() + self.10.reports() + self.11.reports() + self.12.reports()
    }

    fn trace(&self, tracer: &mut Tracer) {
        let ghost pre: Seq<u64> = tracer@;
        self.0.trace(tracer);
        self.1.trace(tracer);
        self.2.trace(tracer);
        self.3.trace(tracer);
        self.4.trace(tracer);
        self.5.trace(tracer);
        self.6.trace(tracer);
        self.7.trace(tracer);
        self.8.trace(tracer);
        self.9.trace(tracer);
        self.10.trace(tracer);
        self.11.trace(tracer);
        self.12.trace(tracer);
        proof {
            assert(tracer@ =~= pre + self.reports());
        }
    }
}

impl<A: Trace, B: Trace, C: Trace, D: Trace, E: Trace, F: Trace, G: Trace, H: Trace, I: Trace, J: Trace, K: Trace, L: Trace, M: Trace, N: Trace> Trace for (A, B, C, D, E, F, G, H, I, J, K, L, M, N) {
    /// A tuple reports each component, in declared left-to-right order.
    open spec fn reports(&self) -> Seq<u64> {
        self.0.reports() + self.1.reports() + self.2.reports() + self.3.reports() + self.4.reports() + self.5.reports() + self.6.reports() + self.7.reports() + self.8.reports() + self.9.reports() + self.10.reports() + self.11.reports() + self.12.reports() + self.13.reports()
    }

    fn trace(&self, tracer: &mut Tracer) {
        let ghost pre: Seq<u64> = tracer@;
        self.0.trace(tracer);
        self.1.trace(tracer);
        self.2.trace(tracer);
        self.3.trace(tracer);
        self.4.trace(tracer);
        self.5.trace(tracer);
        self.6.trace(tracer);
        self.7.trace(tracer);
        self.8.trace(tracer);
        self.9.trace(tracer);
        self.10.trace(tracer);
        self.11.trace(tracer);
        self.12.trace(tracer);
        self.13.trace(tracer);
        proof {
            assert(tracer@ =~= pre + self.reports());
        }
    }
}

impl<A: Trace, B: Trace, C: Trace, D: Trace, E: Trace, F: Trace, G: Trace, H: Trace, I: Trace, J: Trace, K: Trace, L: Trace, M: Trace, N: Trace, O: Trace> Trace for (A, B, C, D, E, F, G, H, I, J, K, L, M, N, O) {
    /// A tuple reports each component, in declared left-to-right order.
    open spec fn reports(&self) -> Seq<u64> {
        self.0.reports() + self.1.reports() + self.2.reports() + self.3.reports() + self.4.reports() + self.5.reports() + self.6.reports() + self.7.reports() + self.8.reports() + self.9.reports() + self.10.reports() + self.11.reports() + self.12.reports() + self.13.reports() + self.14.reports()
    }

    fn trace(&self, tracer: &mut Tracer) {
        let ghost pre: Seq<u64> = tracer@;
        self.0.trace(tracer);
        self.1.trace(tracer);
        self.2.trace(tracer);
        self.3.trace(tracer);
        self.4.trace(tracer);
        self.5.trace(tracer);
        self.6.trace(tracer);
        self.7.trace(tracer);
        self.8.trace(tracer);
        self.9.trace(tracer);
        self.10.trace(tracer);
        self.11.trace(tracer);
        self.12.trace(tracer);
        self.13.trace(tracer);
        self.14.trace(tracer);
        proof {
            assert(tracer@ =~= pre + self.reports());
        }
    }
}

impl<A: Trace, B: Trace, C: Trace, D: Trace, E: Trace, F: Trace, G: Trace, H: Trace, I: Trace, J: Trace, K: Trace, L: Trace, M: Trace, N: Trace, O: Trace, P: Trace> Trace for (A, B, C, D, E, F, G, H, I, J, K, L, M, N, O, P) {
    /// A tuple reports each component, in declared left-to-right order.
    open spec fn reports(&self) -> Seq<u64> {
        self.0.reports() + self.1.reports() + self.2.reports() + self.3.reports() + self.4.reports() + self.5.reports() + self.6.reports() + self.7.reports() + self.8.reports() + self.9.reports() + self.10.reports() + self.11.reports() + self.12.reports() + self.13.reports() + self.14.reports() + self.15.reports()
    }

    fn trace(&self, tracer: &mut Tracer) {
        let ghost pre: Seq<u64> = tracer@;
        self.0.trace(tracer);
        self.1.trace(tracer);
        self.2.trace(tracer);
        self.3.trace(tracer);
        self.4.trace(tracer);
        self.5.trace(tracer);
        self.6.trace(tracer);
        self.7.trace(tracer);
        self.8.trace(tracer);
        self.9.trace(tracer);
        self.10.trace(tracer);
        self.11.trace(tracer);
        self.12.trace(tracer);
        self.13.trace(tracer);
        self.14.trace(tracer);
        self.15.trace(tracer);
        proof {
            assert(tracer@ =~= pre + self.reports());
        }
    }
}

/// The reports of a sequence of traceable values: the concatenation of each
/// element's reports, in the sequence's order.
pub open spec fn seq_reports<T: Trace>(s: Seq<T>) -> Seq<u64>
    decreases s.len(),
{
    if s.len() == 0 {
        Seq::empty()
    } else {
        s.first().reports() + seq_reports(s.drop_first())
    }
}

/// Appending one element to a sequence appends that element's reports.
pub proof fn lemma_seq_reports_push<T: Trace>(s: Seq<T>, x: T)
    ensures
        seq_reports(s.push(x)) == seq_reports(s) + x.reports(),
    decreases s.len(),
{
    if s.len() == 0 {
        assert(s.push(x).drop_first() =~= Seq::<T>::empty());
        assert(s.push(x).first() == x);
        assert(seq_reports(s.push(x)) == x.reports() + seq_reports(Seq::<T>::empty()));
        assert(seq_reports(s.push(x)) =~= seq_reports(s) + x.reports());
    } else {
        assert(s.push(x).drop_first() =~= s.drop_first().push(x));
        assert(s.push(x).first() == s.first());
        lemma_seq_reports_push(s.drop_first(), x);
        assert(seq_reports(s.push(x)) == s.first().reports() + (seq_reports(s.drop_first())
            + x.reports()));
        assert(seq_reports(s.push(x)) =~= seq_reports(s) + x.reports());
    }
}

impl<T: Trace> Trace for Vec<T> {
    /// A sequence container reports each element, in its natural iteration
    /// order.
    open spec fn reports(&self) -> Seq<u64> {
        seq_reports(self@)
    }

    fn trace(&self, tracer: &mut Tracer) {
        let ghost pre: Seq<u64> = tracer@;
        let ghost rt: u64 = tracer.runtime();
        let n: usize = self.len();
        let mut i: usize = 0;
        while i < n
            invariant
                n == self@.len(),
                i <= n,
                tracer.wf(),
                tracer.runtime() == rt,
                tracer@ == pre + seq_reports(self@.take(i as int)),
            decreases n - i,
        {
            let elem: &T = &self[i];
            elem.trace(tracer);
            proof {
                assert(self@.take(i as int).push(self@[i as int]) =~= self@.take(i as int + 1));
                lemma_seq_reports_push(self@.take(i as int), self@[i as int]);
            }
            i = i + 1;
        }
        proof {
            assert(self@.take(n as int) =~= self@);
        }
    }
}

impl<T: Trace> Trace for VecDeque<T> {
    /// A sequence container reports each element, in its natural iteration
    /// order.
    open spec fn reports(&self) -> Seq<u64> {
        seq_reports(self@)
    }

    fn trace(&self, tracer: &mut Tracer) {
        let ghost pre: Seq<u64> = tracer@;
        let ghost rt: u64 = tracer.runtime();
        let n: usize = self.len();
        let mut i: usize = 0;
        while i < n
            invariant
                n == self@.len(),
                i <= n,
                tracer.wf(),
                tracer.runtime() == rt,
                tracer@ == pre + seq_reports(self@.take(i as int)),
            decreases n - i,
        {
            let elem: &T = &self[i];
            elem.trace(tracer);
            proof {
                assert(self@.take(i as int).push(self@[i as int]) =~= self@.take(i as int + 1));
                lemma_seq_reports_push(self@.take(i as int), self@[i as int]);
            }
            i = i + 1;
        }
        proof {
            assert(self@.take(n as int) =~= self@);
        }
    }
}

} // verus!
