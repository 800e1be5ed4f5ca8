//! Laws of the tracing capability.
//!
//! Each proof function here states, over the spec functions the trait
//! contracts use, a guarantee that holds across the structural
//! implementations; each is proved once and for all inputs.

use vstd::prelude::*;
use crate::handles::Atom;
use crate::handles::Module;
use crate::handles::Object;
use crate::indexed::{entry_report, map_entry_reports};
use crate::trace::{Trace, seq_reports};
use crate::tracer::Tracer;
use std::rc::Rc;
use std::sync::Arc;

verus! {

/// A sequence container whose elements each report exactly one value — the
/// forwarding kinds do — reports exactly one value per element: `n` reports
/// for `n` elements, the `i`-th report being the single report of the
/// `i`-th element.
pub proof fn lemma_seq_one_report_each<T: Trace>(s: Seq<T>)
    requires
        forall|i: int| 0 <= i < s.len() ==> (#[trigger] s[i].reports()).len() == 1,
    ensures
        seq_reports(s).len() == s.len(),
        forall|i: int| 0 <= i < s.len() ==> seq_reports(s)[i] == (#[trigger] s[i].reports())[0],
    decreases s.len(),
{
    if s.len() == 0 {
    } else {
        let d = s.drop_first();
        assert(forall|i: int| 0 <= i < d.len() ==> #[trigger] d[i] == s[i + 1]);
        lemma_seq_one_report_each(d);
        assert(s[0] == s.first());
        assert(s[0].reports().len() == 1);
        assert(seq_reports(s) == s.first().reports() + seq_reports(d));
        assert forall|i: int| 0 <= i < s.len() implies seq_reports(s)[i] == (#[trigger] s[
            i
        ].reports())[0] by {
            if i == 0 {
                assert(seq_reports(s)[0] == s.first().reports()[0]);
            } else {
                assert(seq_reports(s)[i] == seq_reports(d)[i - 1]);
                assert(d[i - 1] == s[i]);
            }
        }
    }
}

/// A sequence container whose elements each report exactly two values — a
/// pair of wrapped forwarding kinds does — reports exactly two values per
/// element, the element's own two reports in order and in the container's
/// order: composition across two levels of nesting loses nothing and
/// duplicates nothing.
pub proof fn lemma_seq_two_reports_each<T: Trace>(s: Seq<T>)
    requires
        forall|i: int| 0 <= i < s.len() ==> (#[trigger] s[i].reports()).len() == 2,
    ensures
        seq_reports(s).len() == 2 * s.len(),
        forall|i: int|
            0 <= i < s.len() ==> seq_reports(s)[2 * i] == (#[trigger] s[i].reports())[0]
                && seq_reports(s)[2 * i + 1] == s[i].reports()[1],
    decreases s.len(),
{
    if s.len() == 0 {
    } else {
        let d = s.drop_first();
        assert(forall|i: int| 0 <= i < d.len() ==> #[trigger] d[i] == s[i + 1]);
        lemma_seq_two_reports_each(d);
        assert(s[0] == s.first());
        assert(s[0].reports().len() == 2);
        assert(seq_reports(s) == s.first().reports() + seq_reports(d));
        assert forall|i: int| 0 <= i < s.len() implies seq_reports(s)[2 * i] == (#[trigger] s[
            i
        ].reports())[0] && seq_reports(s)[2 * i + 1] == s[i].reports()[1] by {
            if i == 0 {
                assert(seq_reports(s)[0] == s.first().reports()[0]);
                assert(seq_reports(s)[1] == s.first().reports()[1]);
            } else {
                assert(seq_reports(s)[2 * i] == seq_reports(d)[2 * (i - 1)]);
                assert(seq_reports(s)[2 * i + 1] == seq_reports(d)[2 * (i - 1) + 1]);
                assert(d[i - 1] == s[i]);
            }
        }
    }
}

/// An associative container all of whose recorded keys and values are
/// reference-counted reports exactly two values per entry, `2n` in all:
/// at position `2i` the key of entry `i`, immediately followed at `2i + 1`
/// by its value.
pub proof fn lemma_map_two_reports_each(es: Seq<((u64, bool), (u64, bool))>)
    requires
        forall|i: int| 0 <= i < es.len() ==> (#[trigger] es[i]).0.1 && es[i].1.1,
    ensures
        map_entry_reports(es).len() == 2 * es.len(),
        forall|i: int|
            0 <= i < es.len() ==> map_entry_reports(es)[2 * i] == (#[trigger] es[i]).0.0
                && map_entry_reports(es)[2 * i + 1] == es[i].1.0,
    decreases es.len(),
{
    if es.len() == 0 {
    } else {
        let d = es.drop_first();
        assert(forall|i: int| 0 <= i < d.len() ==> #[trigger] d[i] == es[i + 1]);
        lemma_map_two_reports_each(d);
        assert(es[0] == es.first());
        assert(entry_report(es[0].0) == seq![es[0].0.0]);
        assert(entry_report(es[0].1) == seq![es[0].1.0]);
        assert(map_entry_reports(es) == entry_report(es.first().0) + entry_report(es.first().1)
            + map_entry_reports(d));
        assert forall|i: int| 0 <= i < es.len() implies map_entry_reports(es)[2 * i] == (#[trigger] es[
            i
        ]).0.0 && map_entry_reports(es)[2 * i + 1] == es[i].1.0 by {
            if i == 0 {
                assert(map_entry_reports(es)[0] == es[0].0.0);
                assert(map_entry_reports(es)[1] == es[0].1.0);
            } else {
                assert(map_entry_reports(es)[2 * i] == map_entry_reports(d)[2 * (i - 1)]);
                assert(map_entry_reports(es)[2 * i + 1] == map_entry_reports(d)[2 * (i - 1) + 1]);
                assert(d[i - 1] == es[i]);
            }
        }
    }
}

/// Nesting composes: a sequence container of pairs of smart-pointer-wrapped
/// forwarding values — two levels of structure above the objects — reports
/// exactly one value per wrapped object, every object's pointer appearing at
/// its own position, with no omission and no duplication.
pub proof fn lemma_nested_composition(s: Seq<(Box<Object>, Rc<Object>)>)
    ensures
        seq_reports(s).len() == 2 * s.len(),
        forall|i: int|
            0 <= i < s.len() ==> seq_reports(s)[2 * i] == (#[trigger] s[i]).0.ptr && seq_reports(
                s,
            )[2 * i + 1] == s[i].1.ptr,
{
    assert forall|i: int| 0 <= i < s.len() implies (#[trigger] s[i].reports()).len() == 2 by {
        assert(s[i].reports() == seq![s[i].0.ptr, s[i].1.ptr]);
    }
    lemma_seq_two_reports_each(s);
    assert forall|i: int| 0 <= i < s.len() implies seq_reports(s)[2 * i] == (#[trigger] s[i]).0.ptr
        && seq_reports(s)[2 * i + 1] == s[i].1.ptr by {
        assert(s[i].reports() == seq![s[i].0.ptr, s[i].1.ptr]);
    }
}

/// A pair whose components each report exactly one value reports each
/// component exactly once, in declared left-to-right order.
pub proof fn lemma_pair_component_order<A: Trace, B: Trace>(t: &(A, B))
    requires
        t.0.reports().len() == 1,
        t.1.reports().len() == 1,
    ensures
        t.reports().len() == 2,
        t.reports()[0] == t.0.reports()[0],
        t.reports()[1] == t.1.reports()[0],
{
}

/// Exclusive-owner wrapping is transparent: a box reports exactly what the
/// value it owns reports.
pub proof fn lemma_box_transparent<T: Trace>(b: &Box<T>)
    ensures
        b.reports() == (**b).reports(),
{
}

/// Shared-ownership wrapping is transparent: a reference-counted pointer
/// reports exactly what the value it shares reports.
pub proof fn lemma_rc_transparent<T: Trace>(r: &Rc<T>)
    ensures
        r.reports() == (**r).reports(),
{
}

/// Atomically shared ownership is transparent: an atomically
/// reference-counted pointer reports exactly what the value it shares
/// reports.
pub proof fn lemma_arc_transparent<T: Trace>(a: &Arc<T>)
    ensures
        a.reports() == (**a).reports(),
{
}

/// Leaf kinds report zero references, whatever their value.
pub proof fn lemma_leaves_report_nothing(n: u64, b: bool, c: char, s: String, a: Atom, m: Module)
    ensures
        n.reports() == Seq::<u64>::empty(),
        b.reports() == Seq::<u64>::empty(),
        c.reports() == Seq::<u64>::empty(),
        s.reports() == Seq::<u64>::empty(),
        a.reports() == Seq::<u64>::empty(),
        m.reports() == Seq::<u64>::empty(),
{
}

/// Reporting the same value twice within one pass is accepted: tracing
/// leaves the visitor ready for further reports and appends the value's
/// reports once per call, whatever was already reported.
pub fn trace_twice<T: Trace>(v: &T, tracer: &mut Tracer)
    requires
        old(tracer).wf(),
    ensures
        final(tracer).wf(),
        final(tracer).runtime() == old(tracer).runtime(),
        final(tracer)@ == old(tracer)@ + v.reports() + v.reports(),
{
    v.trace(tracer);
    v.trace(tracer);
}

} // verus!
