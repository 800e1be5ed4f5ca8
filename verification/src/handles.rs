//! Handles to engine-owned objects.
//!
//! Identity and memory of these objects belong to the engine.  This library
//! reads exactly two things from a managed value: its native pointer and
//! whether the engine reference-counts it, which is all a mark pass needs to
//! decide whether a report is meaningful.

use vstd::prelude::*;

verus! {

/// A generic managed value owned by the engine.
///
/// Some value kinds (numeric and boolean immediates, for instance) are never
/// reference-counted; reporting such a value during a mark pass is a no-op.
#[derive(Clone, Copy, PartialEq, Eq, Hash, Debug)]
pub struct Value {
    /// The native pointer of the engine object this handle designates.
    pub ptr: u64,
    /// Whether the engine reference-counts the designated object.
    pub has_ref_count: bool,
}

/// The report a single managed value produces during a mark pass: its native
/// pointer if the engine reference-counts it, nothing otherwise.
pub open spec fn value_report(v: Value) -> Seq<u64> {
    if v.has_ref_count {
        seq![v.ptr]
    } else {
        Seq::empty()
    }
}

/// An execution context of the engine.  Contexts are always
/// reference-counted, so reporting one is never a no-op.
#[derive(Clone, Copy, PartialEq, Eq, Hash, Debug)]
pub struct Ctx {
    /// The native pointer of the context.
    pub ptr: u64,
}

/// An interned atom.  Atoms cannot hold further managed references and are
/// leaves of every mark pass.
#[derive(Clone, Copy, PartialEq, Eq, Hash, Debug)]
pub struct Atom {
    /// The interning identifier of the atom.
    pub id: u32,
}

/// A loaded module, treated as a leaf at this layer.
#[derive(Clone, Copy, PartialEq, Eq, Hash, Debug)]
pub struct Module {
    /// The native pointer of the module.
    pub ptr: u64,
}

/// A generic object value.  Objects are heap allocated and always
/// reference-counted.
#[derive(Clone, Copy, PartialEq, Eq, Hash, Debug)]
pub struct Object {
    /// The native pointer of the object.
    pub ptr: u64,
}

/// An array value; always reference-counted.
#[derive(Clone, Copy, PartialEq, Eq, Hash, Debug)]
pub struct Array {
    /// The native pointer of the array.
    pub ptr: u64,
}

/// A function or closure value; always reference-counted.
#[derive(Clone, Copy, PartialEq, Eq, Hash, Debug)]
pub struct Function {
    /// The native pointer of the function.
    pub ptr: u64,
}

/// A big integer value; always reference-counted.
#[derive(Clone, Copy, PartialEq, Eq, Hash, Debug)]
pub struct BigInt {
    /// The native pointer of the big integer.
    pub ptr: u64,
}

/// A symbol value; always reference-counted.
#[derive(Clone, Copy, PartialEq, Eq, Hash, Debug)]
pub struct Symbol {
    /// The native pointer of the symbol.
    pub ptr: u64,
}

/// An exception value; always reference-counted.
#[derive(Clone, Copy, PartialEq, Eq, Hash, Debug)]
pub struct Exception {
    /// The native pointer of the exception.
    pub ptr: u64,
}

/// An engine string value.  Unlike owned host text, an engine string is a
/// managed, reference-counted object of its own.
#[derive(Clone, Copy, PartialEq, Eq, Hash, Debug)]
pub struct JsString {
    /// The native pointer of the string object.
    pub ptr: u64,
}

impl Object {
    /// The generic managed-value view of this object.
    pub fn as_value(&self) -> (v: Value)
        ensures
            v == (Value { ptr: self.ptr, has_ref_count: true }),
    {
        Value { ptr: self.ptr, has_ref_count: true }
    }
}

impl Array {
    /// The generic managed-value view of this array.
    pub fn as_value(&self) -> (v: Value)
        ensures
            v == (Value { ptr: self.ptr, has_ref_count: true }),
    {
        Value { ptr: self.ptr, has_ref_count: true }
    }
}

impl Function {
    /// The generic managed-value view of this function.
    pub fn as_value(&self) -> (v: Value)
        ensures
            v == (Value { ptr: self.ptr, has_ref_count: true }),
    {
        Value { ptr: self.ptr, has_ref_count: true }
    }
}

impl BigInt {
    /// The generic managed-value view of this big integer.
    pub fn as_value(&self) -> (v: Value)
        ensures
            v == (Value { ptr: self.ptr, has_ref_count: true }),
    {
        Value { ptr: self.ptr, has_ref_count: true }
    }
}

impl Symbol {
    /// The generic managed-value view of this symbol.
    pub fn as_value(&self) -> (v: Value)
        ensures
            v == (Value { ptr: self.ptr, has_ref_count: true }),
    {
        Value { ptr: self.ptr, has_ref_count: true }
    }
}

impl Exception {
    /// The generic managed-value view of this exception.
    pub fn as_value(&self) -> (v: Value)
        ensures
            v == (Value { ptr: self.ptr, has_ref_count: true }),
    {
        Value { ptr: self.ptr, has_ref_count: true }
    }
}

impl JsString {
    /// The generic managed-value view of this string object.
    pub fn as_value(&self) -> (v: Value)
        ensures
            v == (Value { ptr: self.ptr, has_ref_count: true }),
    {
        Value { ptr: self.ptr, has_ref_count: true }
    }
}

} // verus!
