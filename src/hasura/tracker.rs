use vstd::prelude::*;

use super::client::{
    missing_mapping, relationship_commands, relationship_request, track_table_request,
    track_table_spec, ClientError, FKInfo, MetadataRequest, TableInfo,
};

verus! {

/// One item that could not be registered: the table it concerns and why.
#[derive(Debug, Clone, PartialEq, Eq)]
pub struct ItemFailure {
    pub schema: String,
    pub table: String,
    pub cause: ClientError,
}

/// What a batch came to: how many items were registered, and which were not.
#[derive(Debug, Clone, PartialEq, Eq)]
pub struct TrackReport {
    pub successes: usize,
    pub failures: Vec<ItemFailure>,
}

impl TrackReport {
    /// Whether no item failed.
    pub fn all_succeeded(&self) -> (r: bool)
        ensures
            r == (self.failures@.len() == 0),
    {
        self.failures.len() == 0
    }
}

/// The failure recorded for a table whose tracking failed.
pub open spec fn table_failure(t: TableInfo, cause: ClientError) -> ItemFailure {
    ItemFailure { schema: t.table_schema, table: t.table_name, cause }
}

/// The failure recorded for a foreign key whose registration failed.
pub open spec fn fk_failure(fk: FKInfo, cause: ClientError) -> ItemFailure {
    ItemFailure { schema: fk.table_schema, table: fk.table_name, cause }
}

/// Tracks a list of tables one after the other, in order, going on past each
/// failure. The caller sends each request and hands the outcome back.
pub struct TableRun {
    source: String,
    tables: Vec<TableInfo>,
    next: usize,
    successes: usize,
    failures: Vec<ItemFailure>,
}

impl TableRun {
    pub closed spec fn source_spec(&self) -> String {
        self.source
    }

    pub closed spec fn tables_spec(&self) -> Seq<TableInfo> {
        self.tables@
    }

    /// How many tables have been dealt with.
    pub closed spec fn done(&self) -> nat {
        self.next as nat
    }

    pub closed spec fn successes_spec(&self) -> nat {
        self.successes as nat
    }

    pub closed spec fn failures_spec(&self) -> Seq<ItemFailure> {
        self.failures@
    }

    /// Every table dealt with either succeeded or failed.
    pub closed spec fn wf(&self) -> bool {
        &&& self.next <= self.tables@.len()
        &&& self.successes + self.failures@.len() == self.next
    }

    /// What a well-formed run keeps: no more done than there are, and each
    /// one done counted once, as a success or as a failure.
    pub proof fn lemma_wf(&self)
        requires
            self.wf(),
        ensures
            self.done() <= self.tables_spec().len(),
            self.successes_spec() + self.failures_spec().len() == self.done(),
    {
    }

    /// A run over `tables`, in `source`, with nothing done yet.
    pub fn new(source: String, tables: Vec<TableInfo>) -> (r: TableRun)
        ensures
            r.wf(),
            r.source_spec() == source,
            r.tables_spec() == tables@,
            r.done() == 0,
            r.successes_spec() == 0,
            r.failures_spec().len() == 0,
    {
        TableRun { source, tables, next: 0, successes: 0, failures: Vec::new() }
    }

    /// How many tables the run holds.
    pub fn total(&self) -> (r: usize)
        ensures
            r == self.tables_spec().len(),
    {
        self.tables.len()
    }

    /// How many tables have been dealt with.
    pub fn position(&self) -> (r: usize)
        ensures
            r == self.done(),
    {
        self.next
    }

    /// The request that tracks the next table, or nothing once all are done.
    pub fn next_request(&self) -> (r: Option<MetadataRequest>)
        requires
            self.wf(),
        ensures
            self.done() < self.tables_spec().len() ==> r == Some(
                track_table_spec(
                    self.source_spec(),
                    self.tables_spec()[self.done() as int].table_name,
                    self.tables_spec()[self.done() as int].table_schema,
                ),
            ),
            self.done() == self.tables_spec().len() ==> r is None,
    {
        if self.next < self.tables.len() {
            let t = &self.tables[self.next];
            Some(track_table_request(self.source.clone(), t.table_name.clone(), t.table_schema.clone()))
        } else {
            None
        }
    }

    /// Records the outcome of tracking the next table and moves past it: a
    /// success is counted, a failure is kept with the table it concerns. Once all
    /// tables are done this changes nothing.
    pub fn record(&mut self, outcome: Result<(), ClientError>)
        requires
            old(self).wf(),
        ensures
            final(self).wf(),
            final(self).source_spec() == old(self).source_spec(),
            final(self).tables_spec() == old(self).tables_spec(),
            old(self).done() == old(self).tables_spec().len() ==> *final(self) == *old(self),
            old(self).done() < old(self).tables_spec().len() ==> {
                &&& final(self).done() == old(self).done() + 1
                &&& match outcome {
                    Ok(_) => {
                        &&& final(self).successes_spec() == old(self).successes_spec() + 1
                        &&& final(self).failures_spec() == old(self).failures_spec()
                    },
                    Err(e) => {
                        &&& final(self).successes_spec() == old(self).successes_spec()
                        &&& final(self).failures_spec() == old(self).failures_spec().push(
                            table_failure(old(self).tables_spec()[old(self).done() as int], e),
                        )
                    },
                }
            },
    {
        if self.next >= self.tables.len() {
            return;
        }
        match outcome {
            Ok(_) => {
                self.successes = self.successes + 1;
            },
            Err(e) => {
                let t = &self.tables[self.next];
                self.failures.push(
                    ItemFailure { schema: t.table_schema.clone(), table: t.table_name.clone(), cause: e },
                );
            },
        }
        self.next = self.next + 1;
    }

    /// The successes and failures so far.
    pub fn into_report(self) -> (r: TrackReport)
        requires
            self.wf(),
        ensures
            r.successes == self.successes_spec(),
            r.failures@ == self.failures_spec(),
    {
        TrackReport { successes: self.successes, failures: self.failures }
    }
}

/// The failures that the foreign keys at `from .. to` give for want of a
/// column mapping, in order.
pub open spec fn missing_failures(fks: Seq<FKInfo>, from: int, to: int) -> Seq<ItemFailure>
    decreases to - from,
{
    if to <= from {
        seq![]
    } else {
        missing_failures(fks, from, to - 1).push(fk_failure(fks[to - 1], missing_mapping(fks[to - 1])))
    }
}

/// The failures for want of a mapping are one per foreign key in `from .. to`,
/// each naming its key's table and constraint.
pub proof fn lemma_missing_failures(fks: Seq<FKInfo>, from: int, to: int)
    requires
        0 <= from <= to <= fks.len(),
    ensures
        missing_failures(fks, from, to).len() == to - from,
        forall|k: int|
            0 <= k < to - from ==> #[trigger] missing_failures(fks, from, to)[k] == fk_failure(
                fks[from + k],
                missing_mapping(fks[from + k]),
            ),
    decreases to - from,
{
    if from < to {
        lemma_missing_failures(fks, from, to - 1);
    }
}

/// Registers the relationships of a list of foreign keys one after the other, in
/// order, going on past each failure. A foreign key without a column mapping
/// fails without a request; for the others the caller sends the request and
/// hands the outcome back.
pub struct RelationshipRun {
    source: String,
    fks: Vec<FKInfo>,
    next: usize,
    successes: usize,
    failures: Vec<ItemFailure>,
}

impl RelationshipRun {
    pub closed spec fn source_spec(&self) -> String {
        self.source
    }

    pub closed spec fn fks_spec(&self) -> Seq<FKInfo> {
        self.fks@
    }

    /// How many foreign keys have been dealt with.
    pub closed spec fn done(&self) -> nat {
        self.next as nat
    }

    pub closed spec fn successes_spec(&self) -> nat {
        self.successes as nat
    }

    pub closed spec fn failures_spec(&self) -> Seq<ItemFailure> {
        self.failures@
    }

    /// Every foreign key dealt with either succeeded or failed.
    pub closed spec fn wf(&self) -> bool {
        &&& self.next <= self.fks@.len()
        &&& self.successes + self.failures@.len() == self.next
    }

    /// What a well-formed run keeps: no more done than there are, and each
    /// one done counted once, as a success or as a failure.
    pub proof fn lemma_wf(&self)
        requires
            self.wf(),
        ensures
            self.done() <= self.fks_spec().len(),
            self.successes_spec() + self.failures_spec().len() == self.done(),
    {
    }

    /// A run over `fks`, in `source`, with nothing done yet.
    pub fn new(source: String, fks: Vec<FKInfo>) -> (r: RelationshipRun)
        ensures
            r.wf(),
            r.source_spec() == source,
            r.fks_spec() == fks@,
            r.done() == 0,
            r.successes_spec() == 0,
            r.failures_spec().len() == 0,
    {
        RelationshipRun { source, fks, next: 0, successes: 0, failures: Vec::new() }
    }

    /// How many foreign keys the run holds.
    pub fn total(&self) -> (r: usize)
        ensures
            r == self.fks_spec().len(),
    {
        self.fks.len()
    }

    /// Records a failure for each foreign key without a column mapping, from
    /// the next one on, up to the first that has one; then gives the bulk request
    /// that registers that one, or nothing once all are done.
    pub fn next_request(&mut self) -> (r: Option<MetadataRequest>)
        requires
            old(self).wf(),
        ensures
            final(self).wf(),
            final(self).source_spec() == old(self).source_spec(),
            final(self).fks_spec() == old(self).fks_spec(),
            final(self).successes_spec() == old(self).successes_spec(),
            old(self).done() <= final(self).done(),
            forall|i: int|
                old(self).done() <= i < final(self).done() ==> (#[trigger] old(self).fks_spec()[i]).column_mapping@.len() == 0,
            final(self).failures_spec() == old(self).failures_spec() + missing_failures(
                old(self).fks_spec(),
                old(self).done() as int,
                final(self).done() as int,
            ),
            final(self).done() == final(self).fks_spec().len() ==> r is None,
            final(self).done() < final(self).fks_spec().len() ==> {
                &&& final(self).fks_spec()[final(self).done() as int].column_mapping@.len() > 0
                &&& r matches Some(MetadataRequest::Bulk(v))
                &&& v@ == relationship_commands(
                    final(self).source_spec(),
                    final(self).fks_spec()[final(self).done() as int],
                )
            },
    {
        let ghost start = self.next as int;
        let ghost failures0 = self.failures@;
        while self.next < self.fks.len()
            invariant
                self.wf(),
                self.source == old(self).source,
                self.fks == old(self).fks,
                self.successes == old(self).successes,
                start == old(self).next,
                failures0 == old(self).failures@,
                start <= self.next,
                forall|i: int| start <= i < self.next ==> (#[trigger] self.fks@[i]).column_mapping@.len() == 0,
                self.failures@ == failures0 + missing_failures(self.fks@, start, self.next as int),
            decreases self.fks@.len() - self.next,
        {
            let req = relationship_request(&self.source, &self.fks[self.next]);
            match req {
                Ok(r) => {
                    return Some(r);
                },
                Err(e) => {
                    let fk = &self.fks[self.next];
                    self.failures.push(
                        ItemFailure { schema: fk.table_schema.clone(), table: fk.table_name.clone(), cause: e },
                    );
                    proof {
                        assert(failures0 + missing_failures(self.fks@, start, self.next + 1) =~= (
                        failures0 + missing_failures(self.fks@, start, self.next as int)).push(
                            fk_failure(self.fks@[self.next as int], missing_mapping(self.fks@[self.next as int])),
                        ));
                    }
                    self.next = self.next + 1;
                },
            }
        }
        None
    }

    /// Records the outcome of the request for the current foreign key and moves
    /// past it: a success is counted, a failure is kept with the table it
    /// concerns. Once all foreign keys are done this changes nothing.
    pub fn record(&mut self, outcome: Result<(), ClientError>)
        requires
            old(self).wf(),
        ensures
            final(self).wf(),
            final(self).source_spec() == old(self).source_spec(),
            final(self).fks_spec() == old(self).fks_spec(),
            old(self).done() == old(self).fks_spec().len() ==> *final(self) == *old(self),
            old(self).done() < old(self).fks_spec().len() ==> {
                &&& final(self).done() == old(self).done() + 1
                &&& match outcome {
                    Ok(_) => {
                        &&& final(self).successes_spec() == old(self).successes_spec() + 1
                        &&& final(self).failures_spec() == old(self).failures_spec()
                    },
                    Err(e) => {
                        &&& final(self).successes_spec() == old(self).successes_spec()
                        &&& final(self).failures_spec() == old(self).failures_spec().push(
                            fk_failure(old(self).fks_spec()[old(self).done() as int], e),
                        )
                    },
                }
            },
    {
        if self.next >= self.fks.len() {
            return;
        }
        match outcome {
            Ok(_) => {
                self.successes = self.successes + 1;
            },
            Err(e) => {
                let fk = &self.fks[self.next];
                self.failures.push(
                    ItemFailure { schema: fk.table_schema.clone(), table: fk.table_name.clone(), cause: e },
                );
            },
        }
        self.next = self.next + 1;
    }

    /// The successes and failures so far.
    pub fn into_report(self) -> (r: TrackReport)
        requires
            self.wf(),
        ensures
            r.successes == self.successes_spec(),
            r.failures@ == self.failures_spec(),
    {
        TrackReport { successes: self.successes, failures: self.failures }
    }
}

} // verus!
