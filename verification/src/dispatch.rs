//! The dispatch layer: resolves a destination tag to the monomorphic
//! operations the pipeline needs.
//!
//! Every operation is total over the closed tag enumeration — an uncovered
//! tag is a build-time failure of this crate, never a per-row error — and
//! costs one branch on the tag discriminant
//! (see [`TypeSystem::resolve_native`]).

use vstd::prelude::*;
use crate::typesystem::{ArrowTypeSystem, NativeValue, TypeSystem};

verus! {

/// Descriptor of one output column: its name and its tag.
#[derive(Clone, Debug, PartialEq)]
pub struct FieldDescriptor {
    pub name: String,
    pub tag: ArrowTypeSystem,
}

/// Per-column, per-partition accumulator for one batch's values, bound to
/// one tag. Exclusively owned by its partition.
#[derive(Clone, Debug, PartialEq)]
pub struct Builder {
    pub tag: ArrowTypeSystem,
    pub values: Vec<NativeValue>,
}

impl Builder {
    /// Every accumulated value is an instance of the tag's one native
    /// representation.
    pub open spec fn wf(&self) -> bool {
        forall|i: int|
            0 <= i < self.values@.len() ==> (#[trigger] self.values@[i]).kind()
                == self.tag.native()
    }

    /// Append one value whose representation the caller has already checked
    /// against the tag.
    pub fn push(&mut self, value: NativeValue)
        requires
            old(self).wf(),
            value.kind() == old(self).tag.native(),
        ensures
            final(self).wf(),
            final(self).tag == old(self).tag,
            final(self).values@ == old(self).values@.push(value),
    {
        self.values.push(value);
    }
}

/// Immutable, fully populated column produced by finishing a builder.
#[derive(Clone, Debug, PartialEq)]
pub struct Array {
    pub tag: ArrowTypeSystem,
    pub values: Vec<NativeValue>,
}

impl Array {
    /// Every stored value is an instance of the tag's native representation.
    pub open spec fn wf(&self) -> bool {
        forall|i: int|
            0 <= i < self.values@.len() ==> (#[trigger] self.values@[i]).kind()
                == self.tag.native()
    }
}

/// Functor `NewBuilder`: a fresh, empty accumulator for the tag, sized for
/// `capacity` rows.
pub fn new_builder(tag: ArrowTypeSystem, capacity: usize) -> (b: Builder)
    ensures
        b.wf(),
        b.tag == tag,
        b.values@ == Seq::<NativeValue>::empty(),
{
    Builder { tag, values: Vec::with_capacity(capacity) }
}

/// Functor `FinishBuilder`: freeze a builder into an immutable column,
/// keeping every value and its order.
pub fn finish_builder(b: Builder) -> (a: Array)
    ensures
        a.tag == b.tag,
        a.values@ == b.values@,
        b.wf() ==> a.wf(),
{
    Array { tag: b.tag, values: b.values }
}

/// Functor `NewSchemaField`: the descriptor of one output column.
pub fn new_schema_field(name: String, tag: ArrowTypeSystem) -> (f: FieldDescriptor)
    ensures
        f.name == name,
        f.tag == tag,
{
    FieldDescriptor { name, tag }
}

} // verus!
