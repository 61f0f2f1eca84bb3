//! The columnar destination: a schema fixed at allocation, independent
//! partition writers that accumulate fixed-capacity batches, and a shared
//! batch store drained exactly once at the end of a transfer.
//!
//! The store is owned by the destination; a partition writer buffers its own
//! finished batches and publishes them when its handle is released back to
//! the destination. Exclusive access during an append is what a lock would
//! otherwise provide: here the exclusive borrow plays that role, and the
//! handle count makes draining fail loudly instead of blocking.

use vstd::prelude::*;
use crate::constants::RECORD_BATCH_SIZE;
use crate::data_order::DataOrder;
use crate::dispatch::{new_builder, finish_builder, new_schema_field, Array, Builder,
    FieldDescriptor};
use crate::errors::{Arrow2DestinationError, ConnectorXError};
use crate::typesystem::{check_value, ArrowTypeSystem, NativeValue, TypeSystem};

verus! {

/// Immutable, fixed-shape snapshot of fully populated columns. Born at a
/// flush, never mutated afterwards.
#[derive(Clone, Debug, PartialEq)]
pub struct Batch {
    pub columns: Vec<Array>,
}

impl Batch {
    /// Number of rows: the length every column shares.
    pub open spec fn nrows(&self) -> int {
        if self.columns@.len() == 0 {
            0
        } else {
            self.columns@[0].values@.len() as int
        }
    }

    /// The batch has one well-formed column per schema tag, all of the same
    /// length.
    pub open spec fn wf_for(&self, schema: Seq<ArrowTypeSystem>) -> bool {
        &&& self.columns@.len() == schema.len()
        &&& forall|i: int|
            0 <= i < schema.len() ==> (#[trigger] self.columns@[i]).tag == schema[i]
        &&& forall|i: int| 0 <= i < schema.len() ==> (#[trigger] self.columns@[i]).wf()
        &&& forall|i: int|
            0 <= i < schema.len() ==> (#[trigger] self.columns@[i]).values@.len() == self.nrows()
    }

    /// Number of rows of the batch.
    pub fn num_rows(&self) -> (n: usize)
        ensures
            n == self.nrows(),
    {
        if self.columns.len() == 0 {
            0
        } else {
            self.columns[0].values.len()
        }
    }

    /// Number of columns of the batch.
    pub fn num_columns(&self) -> (n: usize)
        ensures
            n == self.columns@.len(),
    {
        self.columns.len()
    }
}

/// The values of column `c` over a sequence of batches, in batch order.
pub open spec fn batches_col(batches: Seq<Batch>, c: int) -> Seq<NativeValue>
    decreases batches.len(),
{
    if batches.len() == 0 {
        Seq::empty()
    } else {
        batches_col(batches.drop_last(), c) + batches.last().columns@[c].values@
    }
}

/// Total number of rows over a sequence of batches.
pub open spec fn batches_rows(batches: Seq<Batch>) -> int
    decreases batches.len(),
{
    if batches.len() == 0 {
        0
    } else {
        batches_rows(batches.drop_last()) + batches.last().nrows()
    }
}

/// In a sequence of batches whose columns all have `nrows` values, every
/// column carries `batches_rows` values.
pub proof fn lemma_batches_col_len(batches: Seq<Batch>, schema: Seq<ArrowTypeSystem>, c: int)
    requires
        forall|i: int| 0 <= i < batches.len() ==> (#[trigger] batches[i]).wf_for(schema),
        0 <= c < schema.len(),
    ensures
        batches_col(batches, c).len() == batches_rows(batches),
    decreases batches.len(),
{
    if batches.len() > 0 {
        lemma_batches_col_len(batches.drop_last(), schema, c);
    }
}

/// Thread-safe in spirit: the single collection of completed batches that
/// every partition contributes to. Appending requires the exclusive borrow
/// — the mutual exclusion of the write phase — and the handle count lets
/// `extract_all` fail loudly while a partition is still live, rather than
/// block or truncate.
pub struct BatchStore {
    pub batches: Vec<Batch>,
    pub handles: usize,
}

impl BatchStore {
    /// An empty store with no outstanding partition handles.
    pub fn new() -> (s: Self)
        ensures
            s.batches@ == Seq::<Batch>::empty(),
            s.handles == 0,
    {
        BatchStore { batches: Vec::new(), handles: 0 }
    }

    /// Hand out `n` more partition handles.
    pub fn grant_handles(&mut self, n: usize)
        requires
            old(self).handles + n <= usize::MAX,
        ensures
            final(self).handles == old(self).handles + n,
            final(self).batches == old(self).batches,
    {
        self.handles = self.handles + n;
    }

    /// Return one partition handle.
    pub fn release_handle(&mut self)
        requires
            old(self).handles >= 1,
        ensures
            final(self).handles == old(self).handles - 1,
            final(self).batches == old(self).batches,
    {
        self.handles = self.handles - 1;
    }

    /// Append one completed batch: the only mutation of the write phase.
    pub fn append(&mut self, batch: Batch)
        ensures
            final(self).batches@ == old(self).batches@.push(batch),
            final(self).handles == old(self).handles,
    {
        self.batches.push(batch);
    }

    /// Extract every batch, exactly once: fails with `ResourceStillHeld`
    /// while any partition handle is outstanding, and never blocks.
    pub fn extract_all(&mut self) -> (r: Result<Vec<Batch>, Arrow2DestinationError>)
        ensures
            old(self).handles > 0 ==> r == Err::<Vec<Batch>, _>(
                Arrow2DestinationError::ResourceStillHeld,
            ) && *final(self) == *old(self),
            old(self).handles == 0 ==> (r matches Ok(batches) && batches@ == old(
                self,
            ).batches@ && final(self).batches@ == Seq::<Batch>::empty() && final(self).handles
                == 0),
    {
        if self.handles > 0 {
            return Err(Arrow2DestinationError::ResourceStillHeld);
        }
        let mut out: Vec<Batch> = Vec::new();
        core::mem::swap(&mut out, &mut self.batches);
        Ok(out)
    }
}

/// Appending one batch appends its column values to every column's
/// emitted sequence.
pub proof fn lemma_batches_col_push(batches: Seq<Batch>, b: Batch, c: int)
    ensures
        batches_col(batches.push(b), c) == batches_col(batches, c) + b.columns@[c].values@,
        batches_rows(batches.push(b)) == batches_rows(batches) + b.nrows(),
{
    assert(batches.push(b).drop_last() =~= batches);
    assert(batches.push(b).last() == b);
}

/// Independent parallel write unit. It owns private builders, appends each
/// value to the column its cursor selects (column-major within a row),
/// flushes a full batch at capacity into its private output sequence, and
/// reallocates. Its batches are published to the shared store when its
/// handle is released back to the destination.
pub struct ArrowPartitionWriter {
    pub schema: Vec<ArrowTypeSystem>,
    pub builders: Option<Vec<Builder>>,
    pub current_row: usize,
    pub current_col: usize,
    pub batch_size: usize,
    pub batches: Vec<Batch>,
}

impl ArrowPartitionWriter {
    /// The still-buffered values of column `c`.
    pub open spec fn pending_col(&self, c: int) -> Seq<NativeValue> {
        match self.builders {
            Some(bs) => bs@[c].values@,
            None => Seq::empty(),
        }
    }

    /// Everything this partition has accepted for column `c`, in source
    /// order: the flushed batches first, then the pending builder.
    pub open spec fn col_emitted(&self, c: int) -> Seq<NativeValue> {
        batches_col(self.batches@, c) + self.pending_col(c)
    }

    /// The builders exist, one per column with the column's tag, and their
    /// fill reflects a cursor at (`rows` complete rows, column `col`).
    pub open spec fn builders_shape(&self, rows: int, col: int) -> bool {
        match self.builders {
            Some(bs) => {
                &&& bs@.len() == self.schema@.len()
                &&& forall|i: int|
                    0 <= i < bs@.len() ==> (#[trigger] bs@[i]).tag == self.schema@[i]
                &&& forall|i: int| 0 <= i < bs@.len() ==> (#[trigger] bs@[i]).wf()
                &&& forall|i: int|
                    0 <= i < bs@.len() ==> (#[trigger] bs@[i]).values@.len() == rows + (
                    if i < col {
                        1int
                    } else {
                        0int
                    })
            },
            None => false,
        }
    }

    /// The flushed batches fit the schema; every one is non-empty, none
    /// exceeds the capacity, and all but the last are exactly full.
    pub open spec fn batches_wf(&self) -> bool {
        &&& forall|i: int|
            0 <= i < self.batches@.len() ==> (#[trigger] self.batches@[i]).wf_for(self.schema@)
        &&& forall|i: int|
            0 <= i < self.batches@.len() ==> 1 <= (#[trigger] self.batches@[i]).nrows()
                <= self.batch_size
        &&& forall|i: int|
            0 <= i < self.batches@.len() - 1 ==> (#[trigger] self.batches@[i]).nrows()
                == self.batch_size
    }

    /// Well-formedness of the writer. While the builders are live every
    /// flushed batch is full; after `finalize` the last batch may be the one
    /// partial batch.
    pub open spec fn wf(&self) -> bool {
        &&& self.schema@.len() >= 1
        &&& self.batch_size >= 1
        &&& self.batches_wf()
        &&& match self.builders {
            Some(_) => {
                &&& self.builders_shape(self.current_row as int, self.current_col as int)
                &&& self.current_col < self.schema@.len()
                &&& self.current_row < self.batch_size
                &&& (self.batches@.len() > 0 ==> self.batches@.last().nrows()
                    == self.batch_size)
            },
            None => self.current_row == 0 && self.current_col == 0,
        }
    }

    /// A fresh writer for the given schema, with empty builders already
    /// allocated and nothing emitted.
    pub fn new(schema: Vec<ArrowTypeSystem>, batch_size: usize) -> (w: Self)
        requires
            schema@.len() >= 1,
            batch_size >= 1,
        ensures
            w.wf(),
            w.schema@ == schema@,
            w.batch_size == batch_size,
            w.builders is Some,
            w.current_row == 0,
            w.current_col == 0,
            w.batches@ == Seq::<Batch>::empty(),
            forall|c: int|
                0 <= c < schema@.len() ==> w.col_emitted(c) == Seq::<NativeValue>::empty(),
    {
        let mut w = ArrowPartitionWriter {
            schema,
            builders: None,
            current_row: 0,
            current_col: 0,
            batch_size,
            batches: Vec::new(),
        };
        w.allocate();
        proof {
            assert forall|c: int| 0 <= c < w.schema@.len() implies w.col_emitted(c)
                == Seq::<NativeValue>::empty() by {
                assert(w.col_emitted(c) =~= Seq::<NativeValue>::empty());
            }
        }
        w
    }

    /// Allocate a fresh, empty builder per column, replacing whatever was
    /// there.
    fn allocate(&mut self)
        requires
            old(self).schema@.len() >= 1,
            old(self).batch_size >= 1,
        ensures
            final(self).schema == old(self).schema,
            final(self).batch_size == old(self).batch_size,
            final(self).batches == old(self).batches,
            final(self).current_row == old(self).current_row,
            final(self).current_col == old(self).current_col,
            final(self).builders is Some,
            final(self).builders_shape(0, 0),
            forall|c: int|
                0 <= c < old(self).schema@.len() ==> final(self).pending_col(c)
                    == Seq::<NativeValue>::empty(),
    {
        let n = self.schema.len();
        let mut builders: Vec<Builder> = Vec::with_capacity(n);
        let mut i: usize = 0;
        while i < n
            invariant
                i == builders@.len(),
                i <= n,
                n == self.schema@.len(),
                self == old(self),
                forall|j: int|
                    0 <= j < i ==> (#[trigger] builders@[j]).tag == self.schema@[j],
                forall|j: int| 0 <= j < i ==> (#[trigger] builders@[j]).values@.len() == 0,
            decreases n - i,
        {
            builders.push(new_builder(self.schema[i], self.batch_size));
            i += 1;
        }
        self.builders = Some(builders);
        proof {
            assert forall|c: int|
                0 <= c < old(self).schema@.len() implies self.pending_col(c)
                == Seq::<NativeValue>::empty() by {
                assert(self.pending_col(c) =~= Seq::<NativeValue>::empty());
            }
        }
    }

    /// Finish every builder into an immutable column, combine them into one
    /// batch against the schema, and push it onto this partition's output.
    /// The builders are consumed; every emitted sequence is preserved.
    fn flush(&mut self)
        requires
            old(self).schema@.len() >= 1,
            old(self).batch_size >= 1,
            old(self).batches_wf(),
            old(self).builders_shape(old(self).current_row as int, 0),
            old(self).current_col == 0,
            1 <= old(self).current_row <= old(self).batch_size,
            old(self).batches@.len() > 0 ==> old(self).batches@.last().nrows() == old(
                self,
            ).batch_size,
        ensures
            final(self).wf(),
            final(self).schema == old(self).schema,
            final(self).batch_size == old(self).batch_size,
            final(self).builders is None,
            final(self).current_row == 0,
            final(self).current_col == 0,
            final(self).batches@.len() == old(self).batches@.len() + 1,
            final(self).batches@.last().nrows() == old(self).current_row,
            forall|i: int|
                0 <= i < old(self).batches@.len() ==> final(self).batches@[i] == old(
                    self,
                ).batches@[i],
            forall|c: int|
                0 <= c < old(self).schema@.len() ==> final(self).col_emitted(c) == old(
                    self,
                ).col_emitted(c),
    {
        let ghost pre = *old(self);
        let mut bs = self.builders.take().unwrap();
        let ghost obs = bs@;
        let n = self.schema.len();
        let mut columns: Vec<Array> = Vec::with_capacity(n);
        while bs.len() > 0
            invariant
                columns@.len() + bs@.len() == obs.len(),
                bs@ =~= obs.subrange(columns@.len() as int, obs.len() as int),
                forall|i: int|
                    0 <= i < obs.len() ==> (#[trigger] obs[i]).wf(),
                forall|i: int|
                    0 <= i < columns@.len() ==> (#[trigger] columns@[i]).tag == obs[i].tag,
                forall|i: int|
                    0 <= i < columns@.len() ==> (#[trigger] columns@[i]).values@
                        == obs[i].values@,
                forall|i: int| 0 <= i < columns@.len() ==> (#[trigger] columns@[i]).wf(),
            decreases bs@.len(),
        {
            let ghost k = columns@.len() as int;
            let b = bs.remove(0);
            proof {
                assert(b == obs[k]);
                assert(bs@ =~= obs.subrange(k + 1, obs.len() as int));
            }
            columns.push(finish_builder(b));
        }
        let batch = Batch { columns };
        proof {
            assert(batch.nrows() == pre.current_row as int);
            assert(batch.wf_for(self.schema@));
        }
        self.batches.push(batch);
        self.current_row = 0;
        self.current_col = 0;
        proof {
            lemma_batches_col_push(pre.batches@, batch, 0);
            assert(self.batches@ == pre.batches@.push(batch));
            assert(self.batches@.last() == batch);
            assert forall|c: int| 0 <= c < self.schema@.len() implies self.col_emitted(c)
                == pre.col_emitted(c) by {
                lemma_batches_col_push(pre.batches@, batch, c);
                assert(batch.columns@[c].values@ == obs[c].values@);
                assert(self.col_emitted(c) =~= pre.col_emitted(c));
            }
        }
    }

    /// Append one value to the column the cursor selects, after checking its
    /// native representation against that column's tag. The cursor cycles
    /// column-major within a row and wraps to the next row after the last
    /// column; a row that completes the capacity flushes one full batch and
    /// reallocates the builders. A mismatched value fails with a type check
    /// error and leaves the writer untouched.
    pub fn consume(&mut self, value: NativeValue) -> (r: Result<(), Arrow2DestinationError>)
        requires
            old(self).wf(),
            old(self).builders is Some,
        ensures
            final(self).wf(),
            final(self).schema == old(self).schema,
            final(self).batch_size == old(self).batch_size,
            final(self).builders is Some,
            (r is Ok <==> value.kind() == old(self).schema@[old(
                self,
            ).current_col as int].native()),
            r is Err ==> *final(self) == *old(self),
            r is Err ==> r == Err::<(), _>(Arrow2DestinationError::ConnectorX(
                ConnectorXError::TypeCheckFailed {
                    expected: old(self).schema@[old(self).current_col as int].native(),
                    found: value.kind(),
                },
            )),
            r is Ok ==> final(self).col_emitted(old(self).current_col as int) == old(
                self,
            ).col_emitted(old(self).current_col as int).push(value),
            r is Ok ==> forall|c: int|
                0 <= c < old(self).schema@.len() && c != old(self).current_col as int
                    ==> final(self).col_emitted(c) == old(self).col_emitted(c),
            r is Ok ==> final(self).current_col as int == (if old(self).current_col + 1 == old(
                self,
            ).schema@.len() {
                0int
            } else {
                old(self).current_col + 1
            }),
            r is Ok && old(self).current_col + 1 < old(self).schema@.len()
                ==> final(self).current_row == old(self).current_row
                    && final(self).batches == old(self).batches,
            r is Ok && old(self).current_col + 1 == old(self).schema@.len()
                && old(self).current_row + 1 < old(self).batch_size
                ==> final(self).current_row == old(self).current_row + 1
                    && final(self).batches == old(self).batches,
            r is Ok && old(self).current_col + 1 == old(self).schema@.len()
                && old(self).current_row + 1 == old(self).batch_size
                ==> final(self).current_row == 0
                    && final(self).batches@.len() == old(self).batches@.len() + 1
                    && final(self).batches@.last().nrows() == old(self).batch_size,
    {
        let col = self.current_col;
        let tag = self.schema[col];
        match check_value(tag, &value) {
            Ok(()) => {},
            Err(e) => {
                return Err(Arrow2DestinationError::ConnectorX(e));
            },
        }
        let ghost pre = *old(self);
        let mut bs = self.builders.take().unwrap();
        let b = &mut bs[col];
        b.push(value);
        self.builders = Some(bs);
        proof {
            assert forall|c: int|
                0 <= c < pre.schema@.len() && c != col as int implies self.col_emitted(c)
                == pre.col_emitted(c) by {
                assert(self.pending_col(c) == pre.pending_col(c));
            }
            assert(self.pending_col(col as int) == pre.pending_col(col as int).push(value));
            assert(self.col_emitted(col as int) =~= pre.col_emitted(col as int).push(value));
        }
        let ghost mid = *self;
        let ncols = self.schema.len();
        self.current_col = self.current_col + 1;
        if self.current_col == ncols {
            self.current_col = 0;
            self.current_row = self.current_row + 1;
            if self.current_row == self.batch_size {
                self.flush();
                let ghost flushed = *self;
                self.allocate();
                proof {
                    assert forall|c: int| 0 <= c < pre.schema@.len() implies self.col_emitted(c)
                        == mid.col_emitted(c) by {
                        assert(flushed.col_emitted(c) == mid.col_emitted(c));
                        assert(flushed.pending_col(c) == Seq::<NativeValue>::empty());
                        assert(self.col_emitted(c) =~= flushed.col_emitted(c));
                    }
                }
            } else {
                proof {
                    assert forall|c: int| 0 <= c < pre.schema@.len() implies self.col_emitted(c)
                        == mid.col_emitted(c) by {}
                }
            }
        } else {
            proof {
                assert forall|c: int| 0 <= c < pre.schema@.len() implies self.col_emitted(c)
                    == mid.col_emitted(c) by {}
            }
        }
        Ok(())
    }

    /// Flush any pending complete rows exactly once and retire the builders.
    /// With no pending rows — in particular on a second call — this is a
    /// no-op, not an error, and produces no extra batch.
    pub fn finalize(&mut self) -> (r: Result<(), Arrow2DestinationError>)
        requires
            old(self).wf(),
            old(self).current_col == 0,
        ensures
            r is Ok,
            final(self).wf(),
            final(self).schema == old(self).schema,
            final(self).batch_size == old(self).batch_size,
            final(self).builders is None,
            final(self).current_row == 0,
            final(self).current_col == 0,
            forall|c: int|
                0 <= c < old(self).schema@.len() ==> final(self).col_emitted(c) == old(
                    self,
                ).col_emitted(c),
            old(self).current_row == 0 ==> final(self).batches == old(self).batches,
            old(self).current_row >= 1 ==> final(self).batches@.len() == old(
                self,
            ).batches@.len() + 1 && final(self).batches@.last().nrows() == old(self).current_row,
    {
        match &self.builders {
            Some(_) => {},
            None => {
                return Ok(());
            },
        }
        if self.current_row == 0 {
            let ghost pre = *old(self);
            self.builders = None;
            proof {
                assert forall|c: int| 0 <= c < pre.schema@.len() implies self.col_emitted(c)
                    == pre.col_emitted(c) by {
                    assert(pre.pending_col(c) =~= Seq::<NativeValue>::empty());
                    assert(self.col_emitted(c) =~= pre.col_emitted(c));
                }
            }
            return Ok(());
        }
        self.flush();
        Ok(())
    }

    /// Number of output columns.
    pub fn ncols(&self) -> (n: usize)
        ensures
            n == self.schema@.len(),
    {
        self.schema.len()
    }

    /// The number of complete rows buffered towards the next batch.
    pub fn aquire_row(&mut self, _n: usize) -> (r: usize)
        ensures
            *final(self) == *old(self),
            r == old(self).current_row,
    {
        self.current_row
    }
}

/// Copy a schema for a partition writer: tags are plain discriminants.
fn copy_schema(schema: &Vec<ArrowTypeSystem>) -> (r: Vec<ArrowTypeSystem>)
    ensures
        r@ == schema@,
{
    let mut out: Vec<ArrowTypeSystem> = Vec::with_capacity(schema.len());
    let mut i: usize = 0;
    while i < schema.len()
        invariant
            i == out@.len(),
            i <= schema@.len(),
            forall|j: int| 0 <= j < i ==> out@[j] == schema@[j],
        decreases schema@.len() - i,
    {
        out.push(schema[i]);
        i += 1;
    }
    proof {
        assert(out@ =~= schema@);
    }
    out
}

/// The columnar destination: owns the output schema, spawns independent
/// partition writers, and owns the shared batch store that is drained
/// exactly once.
pub struct Arrow2Destination {
    pub schema: Vec<ArrowTypeSystem>,
    pub names: Vec<String>,
    pub fields: Vec<FieldDescriptor>,
    pub store: BatchStore,
    pub batch_size: usize,
    pub allocated: bool,
    pub drained: bool,
}

impl Arrow2Destination {
    /// Once allocated, the destination holds one name and one field
    /// descriptor per schema tag, and every stored batch fits the schema.
    pub open spec fn wf(&self) -> bool {
        &&& self.batch_size >= 1
        &&& self.allocated ==> {
            &&& self.schema@.len() >= 1
            &&& self.names@.len() == self.schema@.len()
            &&& self.fields@.len() == self.schema@.len()
            &&& forall|i: int|
                0 <= i < self.schema@.len() ==> (#[trigger] self.fields@[i]).tag
                    == self.schema@[i]
            &&& forall|i: int|
                0 <= i < self.schema@.len() ==> (#[trigger] self.fields@[i]).name
                    == self.names@[i]
        }
        &&& forall|i: int|
            0 <= i < self.store.batches@.len() ==> (#[trigger] self.store.batches@[i]).wf_for(
                self.schema@,
            )
    }

    /// A fresh, unallocated destination with the default batch capacity.
    pub fn new() -> (d: Self)
        ensures
            d.wf(),
            !d.allocated,
            !d.drained,
            d.batch_size == RECORD_BATCH_SIZE,
            d.store.batches@ == Seq::<Batch>::empty(),
            d.store.handles == 0,
    {
        Self::default()
    }

    /// A fresh, unallocated destination with the given batch capacity.
    pub fn new_with_batch_size(batch_size: usize) -> (d: Self)
        requires
            batch_size >= 1,
        ensures
            d.wf(),
            !d.allocated,
            !d.drained,
            d.batch_size == batch_size,
            d.store.batches@ == Seq::<Batch>::empty(),
            d.store.handles == 0,
    {
        Arrow2Destination {
            schema: Vec::new(),
            names: Vec::new(),
            fields: Vec::new(),
            store: BatchStore::new(),
            batch_size,
            allocated: false,
            drained: false,
        }
    }

    /// This destination sizes its builders by capacity, not by a row count
    /// announced in advance.
    pub fn needs_count(&self) -> (r: bool)
        ensures
            r == false,
    {
        false
    }

    /// Fix the output schema: store the tags and names and build one field
    /// descriptor per column through the dispatch layer. Must be called
    /// exactly once, before partitioning. Only row-major data is supported;
    /// any other order fails with `UnsupportedDataOrder` before any row is
    /// read.
    pub fn allocate(
        &mut self,
        _nrows: usize,
        names: &Vec<String>,
        schema: &Vec<ArrowTypeSystem>,
        data_order: DataOrder,
    ) -> (r: Result<(), Arrow2DestinationError>)
        requires
            old(self).wf(),
            !old(self).allocated,
            old(self).store.batches@.len() == 0,
            names@.len() == schema@.len(),
            schema@.len() >= 1,
        ensures
            final(self).wf(),
            final(self).batch_size == old(self).batch_size,
            final(self).store == old(self).store,
            (r is Ok <==> data_order == DataOrder::RowMajor),
            r is Err ==> *final(self) == *old(self) && r == Err::<(), _>(
                Arrow2DestinationError::ConnectorX(
                    ConnectorXError::UnsupportedDataOrder(data_order),
                ),
            ),
            r is Ok ==> final(self).allocated && final(self).schema@ == schema@
                && final(self).names@ == names@,
            final(self).drained == old(self).drained,
    {
        if !matches!(data_order, DataOrder::RowMajor) {
            return Err(Arrow2DestinationError::ConnectorX(
                ConnectorXError::UnsupportedDataOrder(data_order),
            ));
        }
        let n = schema.len();
        let mut own_schema: Vec<ArrowTypeSystem> = Vec::with_capacity(n);
        let mut own_names: Vec<String> = Vec::with_capacity(n);
        let mut fields: Vec<FieldDescriptor> = Vec::with_capacity(n);
        let mut i: usize = 0;
        while i < n
            invariant
                i == own_schema@.len(),
                i == own_names@.len(),
                i == fields@.len(),
                i <= n,
                n == schema@.len(),
                names@.len() == schema@.len(),
                forall|j: int| 0 <= j < i ==> own_schema@[j] == schema@[j],
                forall|j: int| 0 <= j < i ==> own_names@[j] == names@[j],
                forall|j: int| 0 <= j < i ==> (#[trigger] fields@[j]).tag == schema@[j],
                forall|j: int| 0 <= j < i ==> (#[trigger] fields@[j]).name == names@[j],
            decreases n - i,
        {
            let tag = schema[i];
            let name = names[i].clone();
            own_schema.push(tag);
            own_names.push(name.clone());
            fields.push(new_schema_field(name, tag));
            i += 1;
        }
        self.schema = own_schema;
        self.names = own_names;
        self.fields = fields;
        self.allocated = true;
        proof {
            assert(self.schema@ =~= schema@);
            assert(self.names@ =~= names@);
        }
        Ok(())
    }

    /// The fixed output schema.
    pub fn schema(&self) -> (r: &Vec<ArrowTypeSystem>)
        ensures
            r@ == self.schema@,
    {
        &self.schema
    }

    /// Spawn `counts` independent partition writers sharing the fixed
    /// schema, and hand out one store handle per writer. Each writer starts
    /// with freshly allocated empty builders and never observes another
    /// writer's in-progress state.
    pub fn partition(&mut self, counts: usize) -> (ws: Vec<ArrowPartitionWriter>)
        requires
            old(self).wf(),
            old(self).allocated,
            old(self).store.handles + counts <= usize::MAX,
        ensures
            final(self).wf(),
            final(self).allocated,
            final(self).schema == old(self).schema,
            final(self).names == old(self).names,
            final(self).fields == old(self).fields,
            final(self).batch_size == old(self).batch_size,
            final(self).store.batches == old(self).store.batches,
            final(self).store.handles == old(self).store.handles + counts,
            final(self).drained == old(self).drained,
            ws@.len() == counts,
            forall|i: int|
                0 <= i < counts ==> (#[trigger] ws@[i]).wf() && ws@[i].schema@ == old(
                    self,
                ).schema@ && ws@[i].batch_size == old(self).batch_size && ws@[i].builders is Some
                    && ws@[i].batches@ == Seq::<Batch>::empty() && ws@[i].current_row == 0
                    && ws@[i].current_col == 0,
    {
        let mut ws: Vec<ArrowPartitionWriter> = Vec::with_capacity(counts);
        let mut i: usize = 0;
        while i < counts
            invariant
                i == ws@.len(),
                i <= counts,
                old(self).wf(),
                old(self).allocated,
                *self == *old(self),
                forall|j: int|
                    0 <= j < i ==> (#[trigger] ws@[j]).wf() && ws@[j].schema@ == old(
                        self,
                    ).schema@ && ws@[j].batch_size == old(self).batch_size && ws@[j].builders
                        is Some && ws@[j].batches@ == Seq::<Batch>::empty() && ws@[j].current_row
                        == 0 && ws@[j].current_col == 0,
            decreases counts - i,
        {
            let schema = copy_schema(&self.schema);
            ws.push(ArrowPartitionWriter::new(schema, self.batch_size));
            i += 1;
        }
        self.store.grant_handles(counts);
        ws
    }

    /// Return one partition's handle: publish the batches it produced to the
    /// shared store, in their order, and release the handle. Pending rows
    /// the partition never finalized are discarded with it.
    pub fn release(&mut self, w: ArrowPartitionWriter)
        requires
            old(self).wf(),
            old(self).store.handles >= 1,
            w.wf(),
            w.schema@ == old(self).schema@,
        ensures
            final(self).wf(),
            final(self).allocated == old(self).allocated,
            final(self).schema == old(self).schema,
            final(self).names == old(self).names,
            final(self).fields == old(self).fields,
            final(self).batch_size == old(self).batch_size,
            final(self).store.handles == old(self).store.handles - 1,
            final(self).store.batches@ == old(self).store.batches@ + w.batches@,
            final(self).drained == old(self).drained,
    {
        let mut batches = w.batches;
        let ghost contributed = batches@;
        let total = batches.len();
        let mut i: usize = 0;
        while batches.len() > 0
            invariant
                old(self).wf(),
                total == contributed.len(),
                i <= total,
                i + batches@.len() == contributed.len(),
                batches@ =~= contributed.subrange(i as int, contributed.len() as int),
                forall|j: int|
                    0 <= j < contributed.len() ==> (#[trigger] contributed[j]).wf_for(
                        old(self).schema@,
                    ),
                self.schema == old(self).schema,
                self.names == old(self).names,
                self.fields == old(self).fields,
                self.batch_size == old(self).batch_size,
                self.allocated == old(self).allocated,
                self.drained == old(self).drained,
                self.store.handles == old(self).store.handles,
                self.store.batches@ =~= old(self).store.batches@ + contributed.subrange(
                    0,
                    i as int,
                ),
                self.wf(),
            decreases batches@.len(),
        {
            let ghost k = i as int;
            let b = batches.remove(0);
            proof {
                assert(b == contributed[k]);
                assert(batches@ =~= contributed.subrange(k + 1, contributed.len() as int));
            }
            self.store.append(b);
            i += 1;
            proof {
                assert(self.store.batches@ =~= old(self).store.batches@ + contributed.subrange(
                    0,
                    i as int,
                ));
            }
        }
        self.store.release_handle();
        proof {
            assert(contributed.subrange(0, contributed.len() as int) =~= contributed);
            assert(self.store.batches@ =~= old(self).store.batches@ + w.batches@);
        }
    }

    /// Drain the shared store: hand over every batch, exactly once. Fails
    /// with `ResourceStillHeld` — leaving the destination untouched, so the
    /// drain can be retried — while any partition handle is still alive.
    pub fn arrow(&mut self) -> (r: Result<Vec<Batch>, Arrow2DestinationError>)
        requires
            old(self).wf(),
            !old(self).drained,
        ensures
            final(self).wf(),
            old(self).store.handles > 0 ==> r == Err::<Vec<Batch>, _>(
                Arrow2DestinationError::ResourceStillHeld,
            ) && *final(self) == *old(self),
            old(self).store.handles == 0 ==> (r matches Ok(batches) && batches@ == old(
                self,
            ).store.batches@ && final(self).store.batches@ == Seq::<Batch>::empty()
                && final(self).drained),
    {
        let r = self.store.extract_all();
        if r.is_ok() {
            self.drained = true;
        }
        r
    }
}

/// Over a finalized sequence of batches — all full except possibly the last
/// — the total row count splits as (count - 1) full batches plus the last.
proof fn lemma_batches_rows_split(batches: Seq<Batch>, cap: int)
    requires
        cap >= 1,
        batches.len() > 0,
        forall|i: int| 0 <= i < batches.len() - 1 ==> (#[trigger] batches[i]).nrows() == cap,
        1 <= batches.last().nrows() <= cap,
    ensures
        batches_rows(batches) == (batches.len() - 1) * cap + batches.last().nrows(),
    decreases batches.len(),
{
    if batches.len() == 1 {
        assert(batches.drop_last() =~= Seq::<Batch>::empty());
        assert(batches_rows(Seq::<Batch>::empty()) == 0);
        assert(batches_rows(batches) == batches.last().nrows());
    } else {
        let pre = batches.drop_last();
        assert(forall|i: int| 0 <= i < pre.len() ==> pre[i] == batches[i]);
        assert(pre.last() == batches[batches.len() - 2]);
        assert(pre.last().nrows() == cap);
        lemma_batches_rows_split(pre, cap);
        assert(batches_rows(batches) == batches_rows(pre) + batches.last().nrows());
        assert(batches_rows(pre) == (pre.len() - 1) * cap + cap);
        assert((pre.len() - 1) * cap + cap == (batches.len() - 1) * cap) by (nonlinear_arith)
            requires
                pre.len() + 1 == batches.len(),
        ;
    }
}

/// The round trip law of a partition. Once a writer is finalized, the rows
/// it accepted — R of them, against a batch capacity C — have been cut into
/// exactly R / C full batches plus, when R % C is not zero, one final
/// partial batch of R % C rows, and nothing else; each column carries
/// exactly its R accepted values. The per-column source order is the
/// `consume` contract: every accepted value is appended to its column's
/// emitted sequence.
pub proof fn lemma_round_trip(w: ArrowPartitionWriter, c: int)
    requires
        w.wf(),
        w.builders is None,
        0 <= c < w.schema@.len(),
    ensures
        w.col_emitted(c) == batches_col(w.batches@, c),
        w.col_emitted(c).len() == batches_rows(w.batches@),
        ({
            let total = batches_rows(w.batches@);
            let cap = w.batch_size as int;
            &&& (total % cap == 0 ==> w.batches@.len() == total / cap)
            &&& (total % cap != 0 ==> w.batches@.len() == total / cap + 1
                && w.batches@.last().nrows() == total % cap)
            &&& forall|i: int|
                0 <= i < w.batches@.len() - 1 ==> (#[trigger] w.batches@[i]).nrows() == cap
        }),
{
    lemma_batches_col_len(w.batches@, w.schema@, c);
    assert(w.col_emitted(c) =~= batches_col(w.batches@, c));
    let total = batches_rows(w.batches@);
    let cap = w.batch_size as int;
    let n = w.batches@.len() as int;
    if n == 0 {
        vstd::arithmetic::div_mod::lemma_fundamental_div_mod_converse(0, cap, 0, 0);
    } else {
        lemma_batches_rows_split(w.batches@, cap);
        let last = w.batches@.last().nrows();
        if last == cap {
            assert(total == n * cap + 0) by (nonlinear_arith)
                requires
                    total == (n - 1) * cap + last,
                    last == cap,
            ;
            vstd::arithmetic::div_mod::lemma_fundamental_div_mod_converse(total, cap, n, 0);
        } else {
            vstd::arithmetic::div_mod::lemma_fundamental_div_mod_converse(
                total,
                cap,
                n - 1,
                last,
            );
        }
    }
}

impl Default for Arrow2Destination {
    /// An unallocated destination with the default batch capacity.
    fn default() -> (d: Self)
        ensures
            d.wf(),
            !d.allocated,
            !d.drained,
            d.batch_size == RECORD_BATCH_SIZE,
            d.store.batches@ == Seq::<Batch>::empty(),
            d.store.handles == 0,
    {
        Arrow2Destination {
            schema: Vec::new(),
            names: Vec::new(),
            fields: Vec::new(),
            store: BatchStore::new(),
            batch_size: RECORD_BATCH_SIZE,
            allocated: false,
            drained: false,
        }
    }
}

} // verus!
