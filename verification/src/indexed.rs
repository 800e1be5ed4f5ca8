//! Tracing for the insertion-ordered containers of the `indexmap` crate.
//!
//! Unlike a hash map, whose walking order depends on a per-process seed, an
//! `IndexSet` or `IndexMap` hands its contents out in insertion order, by
//! position, so a mark pass over one has a sequence of reports that is a
//! function of the container alone.  The containers are declared opaque
//! here; what each holds is named by an uninterpreted sequence, and the two
//! accessors the traversal needs are trusted to agree with that name.

use vstd::prelude::*;
use indexmap::IndexMap;
use indexmap::IndexSet;
use std::collections::hash_map::RandomState;
use crate::handles::{Value, value_report};
use crate::trace::Trace;
use crate::tracer::Tracer;

verus! {

#[verifier::external_type_specification]
#[verifier::external_body]
#[verifier::reject_recursive_types(T)]
#[verifier::reject_recursive_types(S)]
pub struct ExIndexSet<T, S>(IndexSet<T, S>);

#[verifier::external_type_specification]
#[verifier::external_body]
#[verifier::reject_recursive_types(K)]
#[verifier::reject_recursive_types(V)]
#[verifier::reject_recursive_types(S)]
pub struct ExIndexMap<K, V, S>(IndexMap<K, V, S>);

/// The elements an insertion-ordered set of managed values holds, in the
/// set's insertion order, each as the pair of its native pointer and its
/// reference-counted flag.
pub uninterp spec fn index_set_entries(s: &IndexSet<Value, RandomState>) -> Seq<(u64, bool)>;

/// The entries an insertion-ordered map of managed values holds, in the
/// map's insertion order; each key and each value as the pair of its native
/// pointer and its reference-counted flag.
pub uninterp spec fn index_map_entries(m: &IndexMap<Value, Value, RandomState>) -> Seq<
    ((u64, bool), (u64, bool)),
>;

/// Relies on `indexmap::IndexSet::len`: the number of elements in the set.
#[verifier::external_body]
fn iset_len(s: &IndexSet<Value, RandomState>) -> (n: usize)
    ensures
        n == index_set_entries(s).len(),
{
    s.len()
}

/// Relies on `indexmap::IndexSet::get_index`: the element at position `i`
/// of the set's insertion order, or nothing when `i` is out of range.
#[verifier::external_body]
fn iset_get_index(s: &IndexSet<Value, RandomState>, i: usize) -> (r: Option<&Value>)
    ensures
        match r {
            Some(v) => i < index_set_entries(s).len() && (v.ptr, v.has_ref_count)
                == index_set_entries(s)[i as int],
            None => i >= index_set_entries(s).len(),
        },
{
    s.get_index(i)
}

/// Relies on `indexmap::IndexMap::len`: the number of entries in the map.
#[verifier::external_body]
fn imap_len(m: &IndexMap<Value, Value, RandomState>) -> (n: usize)
    ensures
        n == index_map_entries(m).len(),
{
    m.len()
}

/// Relies on `indexmap::IndexMap::get_index`: the entry at position `i` of
/// the map's insertion order, or nothing when `i` is out of range.
#[verifier::external_body]
fn imap_get_index(m: &IndexMap<Value, Value, RandomState>, i: usize) -> (r: Option<
    (&Value, &Value),
>)
    ensures
        match r {
            Some(kv) => i < index_map_entries(m).len() && ((kv.0.ptr, kv.0.has_ref_count), (
                kv.1.ptr,
                kv.1.has_ref_count,
            )) == index_map_entries(m)[i as int],
            None => i >= index_map_entries(m).len(),
        },
{
    m.get_index(i)
}

/// The report of one recorded element: its pointer when the recorded flag
/// says the engine reference-counts it, nothing otherwise.
pub open spec fn entry_report(e: (u64, bool)) -> Seq<u64> {
    if e.1 {
        seq![e.0]
    } else {
        Seq::empty()
    }
}

/// The reports of a recorded element sequence, in order.
pub open spec fn set_entry_reports(es: Seq<(u64, bool)>) -> Seq<u64>
    decreases es.len(),
{
    if es.len() == 0 {
        Seq::empty()
    } else {
        entry_report(es.first()) + set_entry_reports(es.drop_first())
    }
}

/// The reports of a recorded entry sequence: for every entry its key's
/// report immediately followed by its value's report.
pub open spec fn map_entry_reports(es: Seq<((u64, bool), (u64, bool))>) -> Seq<u64>
    decreases es.len(),
{
    if es.len() == 0 {
        Seq::empty()
    } else {
        entry_report(es.first().0) + entry_report(es.first().1) + map_entry_reports(
            es.drop_first(),
        )
    }
}

/// Appending one recorded element appends that element's report.
pub proof fn lemma_set_entry_reports_push(es: Seq<(u64, bool)>, e: (u64, bool))
    ensures
        set_entry_reports(es.push(e)) == set_entry_reports(es) + entry_report(e),
    decreases es.len(),
{
    if es.len() == 0 {
        assert(es.push(e).drop_first() =~= Seq::<(u64, bool)>::empty());
        assert(es.push(e).first() == e);
        assert(set_entry_reports(es.push(e)) == entry_report(e) + set_entry_reports(
            Seq::<(u64, bool)>::empty(),
        ));
        assert(set_entry_reports(es.push(e)) =~= set_entry_reports(es) + entry_report(e));
    } else {
        assert(es.push(e).drop_first() =~= es.drop_first().push(e));
        assert(es.push(e).first() == es.first());
        lemma_set_entry_reports_push(es.drop_first(), e);
        assert(set_entry_reports(es.push(e)) =~= set_entry_reports(es) + entry_report(e));
    }
}

/// Appending one recorded entry appends its key's report followed by its
/// value's report.
pub proof fn lemma_map_entry_reports_push(
    es: Seq<((u64, bool), (u64, bool))>,
    e: ((u64, bool), (u64, bool)),
)
    ensures
        map_entry_reports(es.push(e)) == map_entry_reports(es) + entry_report(e.0) + entry_report(
            e.1,
        ),
    decreases es.len(),
{
    if es.len() == 0 {
        assert(es.push(e).drop_first() =~= Seq::<((u64, bool), (u64, bool))>::empty());
        assert(es.push(e).first() == e);
        assert(map_entry_reports(es.push(e)) == entry_report(e.0) + entry_report(e.1)
            + map_entry_reports(Seq::<((u64, bool), (u64, bool))>::empty()));
        assert(map_entry_reports(es.push(e)) =~= map_entry_reports(es) + entry_report(e.0)
            + entry_report(e.1));
    } else {
        assert(es.push(e).drop_first() =~= es.drop_first().push(e));
        assert(es.push(e).first() == es.first());
        lemma_map_entry_reports_push(es.drop_first(), e);
        assert(map_entry_reports(es.push(e)) =~= map_entry_reports(es) + entry_report(e.0)
            + entry_report(e.1));
    }
}

impl Trace for IndexSet<Value, RandomState> {
    /// An insertion-ordered set reports each element, in insertion order.
    open spec fn reports(&self) -> Seq<u64> {
        set_entry_reports(index_set_entries(self))
    }

    fn trace(&self, tracer: &mut Tracer) {
        let ghost pre: Seq<u64> = tracer@;
        let ghost rt: u64 = tracer.runtime();
        let n: usize = iset_len(self);
        let mut i: usize = 0;
        while i < n
            invariant
                n == index_set_entries(self).len(),
                i <= n,
                tracer.wf(),
                tracer.runtime() == rt,
                tracer@ == pre + set_entry_reports(index_set_entries(self).take(i as int)),
            decreases n - i,
        {
            let item = iset_get_index(self, i);
            match item {
                Some(v) => {
                    tracer.mark(v);
                    proof {
                        let es = index_set_entries(self);
                        assert(es.take(i as int).push(es[i as int]) =~= es.take(i as int + 1));
                        lemma_set_entry_reports_push(es.take(i as int), es[i as int]);
                        assert(value_report(*v) == entry_report(es[i as int]));
                    }
                },
                None => {
                    proof {
                        assert(false);
                    }
                },
            }
            i = i + 1;
        }
        proof {
            assert(index_set_entries(self).take(n as int) =~= index_set_entries(self));
        }
    }
}

impl Trace for IndexMap<Value, Value, RandomState> {
    /// An insertion-ordered map reports, for every entry in insertion
    /// order, the key's report immediately followed by the value's report.
    open spec fn reports(&self) -> Seq<u64> {
        map_entry_reports(index_map_entries(self))
    }

    fn trace(&self, tracer: &mut Tracer) {
        let ghost pre: Seq<u64> = tracer@;
        let ghost rt: u64 = tracer.runtime();
        let n: usize = imap_len(self);
        let mut i: usize = 0;
        while i < n
            invariant
                n == index_map_entries(self).len(),
                i <= n,
                tracer.wf(),
                tracer.runtime() == rt,
                tracer@ == pre + map_entry_reports(index_map_entries(self).take(i as int)),
            decreases n - i,
        {
            let item = imap_get_index(self, i);
            match item {
                Some(kv) => {
                    tracer.mark(kv.0);
                    tracer.mark(kv.1);
                    proof {
                        let es = index_map_entries(self);
                        assert(es.take(i as int).push(es[i as int]) =~= es.take(i as int + 1));
                        lemma_map_entry_reports_push(es.take(i as int), es[i as int]);
                        assert(value_report(*kv.0) == entry_report(es[i as int].0));
                        assert(value_report(*kv.1) == entry_report(es[i as int].1));
                        assert(tracer@ =~= pre + map_entry_reports(es.take(i as int + 1)));
                    }
                },
                None => {
                    proof {
                        assert(false);
                    }
                },
            }
            i = i + 1;
        }
        proof {
            assert(index_map_entries(self).take(n as int) =~= index_map_entries(self));
        }
    }
}

} // verus!
