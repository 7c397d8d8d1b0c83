//! The table of in-flight requests and their absolute deadlines.

use std::collections::HashMap;
use vstd::std_specs::iter::IteratorSpec;
use vstd::prelude::*;

verus! {

broadcast use vstd::std_specs::hash::group_hash_axioms;

/// The deadline of a request begun at `now_ms` with `timeout_ms`: their sum,
/// clamped to the largest representable instant.
pub open spec fn deadline_of(now_ms: u64, timeout_ms: u64) -> u64 {
    if now_ms + timeout_ms > u64::MAX {
        u64::MAX
    } else {
        (now_ms + timeout_ms) as u64
    }
}

/// Whether `id` is in flight in `table` with a deadline at or before
/// `now_ms`.
pub open spec fn is_due(table: Map<i64, u64>, id: i64, now_ms: u64) -> bool {
    table.contains_key(id) && table[id] <= now_ms
}

/// The identifiers in `table` whose deadline is at or before `now_ms`.
pub open spec fn due_ids(table: Map<i64, u64>, now_ms: u64) -> Set<i64> {
    Set::new(|id: i64| is_due(table, id, now_ms))
}

/// Whether `id` occurs among the first `upto` of `entries` with a deadline at
/// or before `now_ms`.
spec fn due_among(entries: Seq<(i64, u64)>, upto: int, id: i64, now_ms: u64) -> bool {
    exists|j: int| 0 <= j < upto && #[trigger] entries[j].0 == id && entries[j].1 <= now_ms
}

/// What is left of `table` once every identifier due at `now_ms` is removed.
pub open spec fn after_sweep(table: Map<i64, u64>, now_ms: u64) -> Map<i64, u64> {
    table.remove_keys(due_ids(table, now_ms))
}

/// Every entry of `table`, each identifier once, in the order in which the
/// map hands them out.
fn entries_of(table: &HashMap<i64, u64>) -> (entries: Vec<(i64, u64)>)
    ensures
        forall|j: int|
            0 <= j < entries@.len() ==> table@.contains_key(#[trigger] entries@[j].0)
                && table@[entries@[j].0] == entries@[j].1,
        forall|id: i64|
            table@.contains_key(id) ==> exists|j: int|
                0 <= j < entries@.len() && #[trigger] entries@[j].0 == id,
        forall|i: int, j: int|
            0 <= i < j < entries@.len() ==> #[trigger] entries@[i].0 != #[trigger] entries@[j].0,
{
    let mut entries: Vec<(i64, u64)> = Vec::new();
    let ghost walk = vstd::std_specs::hash::spec_hash_map_iter(table).remaining();
    for entry in it: table.iter()
        invariant
            it.seq() == walk,
            walk.no_duplicates(),
            entries@.len() == it.index(),
            forall|j: int|
                0 <= j < entries@.len() ==> #[trigger] entries@[j] == (*walk[j].0, *walk[j].1),
    {
        entries.push((*entry.0, *entry.1));
    }
    proof {
        assert(entries@.len() == walk.len());
        assert forall|id: i64| table@.contains_key(id) implies exists|j: int|
            0 <= j < entries@.len() && #[trigger] entries@[j].0 == id by {
            assert(walk.contains((&id, &table@[id])));
            let j = choose|j: int| 0 <= j < walk.len() && walk[j] == (&id, &table@[id]);
            assert(entries@[j].0 == id);
        }
        assert forall|i: int, j: int| 0 <= i < j < entries@.len() implies #[trigger] entries@[i].0
            != #[trigger] entries@[j].0 by {
            if entries@[i].0 == entries@[j].0 {
                assert(table@.contains_key(*walk[i].0));
                assert(table@.contains_key(*walk[j].0));
                assert(walk[i] == walk[j]);
            }
        }
    }
    entries
}

/// Removes from `table` and returns, in no particular order, every
/// identifier whose deadline is at or before `now_ms`.
fn sweep(table: &mut HashMap<i64, u64>, now_ms: u64) -> (ids: Vec<i64>)
    ensures
        ids@.no_duplicates(),
        forall|id: i64| ids@.contains(id) <==> is_due(old(table)@, id, now_ms),
        final(table)@ == after_sweep(old(table)@, now_ms),
{
    let entries = entries_of(table);
    let mut ids: Vec<i64> = Vec::new();
    let mut i: usize = 0;
    while i < entries.len()
        invariant
            i <= entries.len(),
            forall|j: int|
                0 <= j < entries@.len() ==> old(table)@.contains_key(#[trigger] entries@[j].0)
                    && old(table)@[entries@[j].0] == entries@[j].1,
            forall|a: int, b: int|
                0 <= a < b < entries@.len() ==> #[trigger] entries@[a].0
                    != #[trigger] entries@[b].0,
            forall|k: int|
                0 <= k < ids@.len() ==> due_among(entries@, i as int, #[trigger] ids@[k], now_ms),
            forall|j: int|
                0 <= j < i && entries@[j].1 <= now_ms ==> ids@.contains(
                    #[trigger] entries@[j].0,
                ),
            ids@.no_duplicates(),
            table@ == old(table)@.remove_keys(ids@.to_set()),
        decreases entries.len() - i,
    {
        let (id, deadline) = entries[i];
        if deadline <= now_ms {
            let ghost before = ids@;
            table.remove(&id);
            ids.push(id);
            proof {
                assert(ids@[before.len() as int] == id);
                assert forall|j: int| 0 <= j <= i && entries@[j].1 <= now_ms implies ids@.contains(
                    #[trigger] entries@[j].0,
                ) by {
                    if j < i {
                        let k = choose|k: int| 0 <= k < before.len() && before[k] == entries@[j].0;
                        assert(ids@[k] == entries@[j].0);
                    }
                }
                assert(!before.contains(id)) by {
                    if before.contains(id) {
                        let k = choose|k: int| 0 <= k < before.len() && before[k] == id;
                        assert(due_among(entries@, i as int, before[k], now_ms));
                        let j = choose|j: int|
                            0 <= j < i && #[trigger] entries@[j].0 == id && entries@[j].1
                                <= now_ms;
                        assert(entries@[j].0 != entries@[i as int].0);
                    }
                }
                assert forall|k: int| 0 <= k < ids@.len() implies due_among(
                    entries@,
                    i + 1,
                    #[trigger] ids@[k],
                    now_ms,
                ) by {
                    if k < before.len() {
                        assert(due_among(entries@, i as int, before[k], now_ms));
                    } else {
                        assert(entries@[i as int].0 == ids@[k]);
                    }
                }
                assert(ids@.to_set() =~= before.to_set().insert(id));
                assert(table@ =~= old(table)@.remove_keys(ids@.to_set()));
            }
        } else {
            proof {
                assert forall|k: int| 0 <= k < ids@.len() implies due_among(
                    entries@,
                    i + 1,
                    #[trigger] ids@[k],
                    now_ms,
                ) by {
                    assert(due_among(entries@, i as int, ids@[k], now_ms));
                }
            }
        }
        i += 1;
    }
    proof {
        assert forall|id: i64| ids@.contains(id) <==> is_due(old(table)@, id, now_ms) by {
            if ids@.contains(id) {
                let k = choose|k: int| 0 <= k < ids@.len() && ids@[k] == id;
                assert(due_among(entries@, i as int, ids@[k], now_ms));
                let j = choose|j: int|
                    0 <= j < i && #[trigger] entries@[j].0 == id && entries@[j].1 <= now_ms;
                assert(old(table)@.contains_key(entries@[j].0));
            }
            if is_due(old(table)@, id, now_ms) {
                let j = choose|j: int| 0 <= j < entries@.len() && #[trigger] entries@[j].0 == id;
                assert(ids@.contains(entries@[j].0));
            }
        }
        assert(ids@.to_set() =~= due_ids(old(table)@, now_ms));
    }
    ids
}

/// In-flight request identifiers with their absolute deadlines in
/// milliseconds.
///
/// The table remembers the highest identifier that it has seen, whether it
/// handed it out itself or was given it, so that an identifier that it hands
/// out is never one that is, or was, in flight.
#[derive(Debug)]
pub struct PendingRequests {
    next_id: i64,
    pending: HashMap<i64, u64>,
}

impl View for PendingRequests {
    type V = Map<i64, u64>;

    /// The deadline of every request that is in flight.
    closed spec fn view(&self) -> Map<i64, u64> {
        self.pending@
    }
}

impl Default for PendingRequests {
    fn default() -> (table: Self)
        ensures
            table@ == Map::<i64, u64>::empty(),
            table.last_id() == 0,
    {
        PendingRequests::new()
    }
}

/// The higher of the counter and an identifier given to the table.
pub open spec fn raised_to(last_id: i64, id: i64) -> i64 {
    if id > last_id {
        id
    } else {
        last_id
    }
}

impl PendingRequests {
    /// No identifier above the counter is in flight.
    #[verifier::type_invariant]
    spec fn counter_covers_table(&self) -> bool {
        forall|id: i64| self.pending@.contains_key(id) ==> id <= self.next_id
    }

    /// The highest identifier that the table has seen, handed out by
    /// `new_request` or given to `insert`; 0 before the first.
    pub closed spec fn last_id(&self) -> i64 {
        self.next_id
    }

    /// A table with nothing in flight.
    pub fn new() -> (table: Self)
        ensures
            table@ == Map::<i64, u64>::empty(),
            table.last_id() == 0,
    {
        PendingRequests { next_id: 0, pending: HashMap::new() }
    }

    /// The highest identifier that the table has seen; 0 before the first.
    /// No identifier above it is in flight.
    pub fn last_issued(&self) -> (id: i64)
        ensures
            id == self.last_id(),
            forall|other: i64| self@.contains_key(other) ==> other <= id,
    {
        proof {
            use_type_invariant(self);
        }
        self.next_id
    }

    /// Begins a request at `now_ms` that is due `timeout_ms` later, under a
    /// fresh identifier: one above every identifier that the table has
    /// seen, so the requests in flight keep their entries.
    pub fn new_request(&mut self, now_ms: u64, timeout_ms: u64) -> (id: i64)
        requires
            old(self).last_id() < i64::MAX,
        ensures
            id == old(self).last_id() + 1,
            id > old(self).last_id(),
            !old(self)@.contains_key(id),
            final(self).last_id() == id,
            final(self)@ == old(self)@.insert(id, deadline_of(now_ms, timeout_ms)),
            forall|other: i64|
                old(self)@.contains_key(other) ==> final(self)@.contains_key(other)
                    && final(self)@[other] == old(self)@[other],
    {
        let mut map = self.take_map();
        let id = self.next_id + 1;
        self.next_id = id;
        map.insert(id, now_ms.saturating_add(timeout_ms));
        self.put_map(map);
        id
    }

    /// Takes the map out of the table and leaves an empty one in its place.
    /// The methods that change the map change it while it is out, so that
    /// the table itself keeps its invariant at every step.
    fn take_map(&mut self) -> (map: HashMap<i64, u64>)
        ensures
            map@ == old(self)@,
            final(self)@ == Map::<i64, u64>::empty(),
            final(self).last_id() == old(self).last_id(),
            forall|id: i64| map@.contains_key(id) ==> id <= old(self).last_id(),
    {
        proof {
            use_type_invariant(&*self);
        }
        let mut map: HashMap<i64, u64> = HashMap::new();
        core::mem::swap(&mut self.pending, &mut map);
        map
    }

    /// Puts a map in the place of the table's own.
    fn put_map(&mut self, map: HashMap<i64, u64>)
        requires
            forall|id: i64| map@.contains_key(id) ==> id <= old(self).last_id(),
        ensures
            final(self)@ == map@,
            final(self).last_id() == old(self).last_id(),
    {
        let mut map = map;
        core::mem::swap(&mut self.pending, &mut map);
    }

    /// Removes and returns, in no particular order, every identifier whose
    /// deadline is at or before `now_ms`.
    pub fn expired(&mut self, now_ms: u64) -> (ids: Vec<i64>)
        ensures
            ids@.no_duplicates(),
            forall|id: i64| ids@.contains(id) <==> is_due(old(self)@, id, now_ms),
            final(self)@ == after_sweep(old(self)@, now_ms),
            final(self).last_id() == old(self).last_id(),
    {
        let mut map = self.take_map();
        let ids = sweep(&mut map, now_ms);
        self.put_map(map);
        ids
    }

    /// Ends the request `id`; says whether it was in flight. Ending a
    /// request that is not in flight changes nothing.
    pub fn complete(&mut self, id: i64) -> (was_pending: bool)
        ensures
            was_pending == old(self)@.contains_key(id),
            final(self)@ == old(self)@.remove(id),
            !old(self)@.contains_key(id) ==> final(self)@ == old(self)@,
            !final(self)@.contains_key(id),
            final(self).last_id() == old(self).last_id(),
    {
        let mut map = self.take_map();
        let was_pending = map.remove(&id).is_some();
        self.put_map(map);
        proof {
            lemma_complete_absent(old(self)@, id);
        }
        was_pending
    }

    /// Begins a request at `now_ms` that is due `timeout_ms` later, under
    /// an identifier that the caller chose. The table takes note of the
    /// identifier: `new_request` hands out none at or below it afterwards.
    /// An identifier that is in flight gets the new deadline.
    pub fn insert(&mut self, id: i64, now_ms: u64, timeout_ms: u64)
        ensures
            final(self)@ == old(self)@.insert(id, deadline_of(now_ms, timeout_ms)),
            final(self).last_id() == raised_to(old(self).last_id(), id),
    {
        let mut map = self.take_map();
        if id > self.next_id {
            self.next_id = id;
        }
        map.insert(id, now_ms.saturating_add(timeout_ms));
        self.put_map(map);
    }
}

/// Ending a request that is not in flight leaves the table as it was.
pub proof fn lemma_complete_absent(table: Map<i64, u64>, id: i64)
    ensures
        !table.contains_key(id) ==> table.remove(id) == table,
        !table.remove(id).contains_key(id),
{
    if !table.contains_key(id) {
        assert(table.remove(id) =~= table);
    }
}

/// Ending a request a second time finds it gone and changes nothing.
pub proof fn lemma_complete_twice(table: Map<i64, u64>, id: i64)
    ensures
        !table.remove(id).contains_key(id),
        table.remove(id).remove(id) == table.remove(id),
{
    assert(table.remove(id).remove(id) =~= table.remove(id));
}

/// Sweeping a second time at the same instant finds nothing due and changes
/// nothing.
pub proof fn lemma_sweep_consumes(table: Map<i64, u64>, now_ms: u64)
    ensures
        due_ids(after_sweep(table, now_ms), now_ms) == Set::<i64>::empty(),
        after_sweep(after_sweep(table, now_ms), now_ms) == after_sweep(table, now_ms),
{
    assert(due_ids(after_sweep(table, now_ms), now_ms) =~= Set::<i64>::empty());
    assert(after_sweep(after_sweep(table, now_ms), now_ms) =~= after_sweep(table, now_ms));
}

/// A request with no time at all is due at the very instant at which it
/// was begun.
pub proof fn lemma_zero_timeout_is_due(table: Map<i64, u64>, id: i64, now_ms: u64)
    ensures
        is_due(table.insert(id, deadline_of(now_ms, 0)), id, now_ms),
{
}

/// One operation on the table.
pub enum TableOp {
    /// Begin the request `id` at `now_ms` with `timeout_ms`.
    Begin { id: i64, now_ms: u64, timeout_ms: u64 },
    /// End the request `id`.
    Complete { id: i64 },
    /// Remove and report every request due at `now_ms`.
    Sweep { now_ms: u64 },
}

/// The table after `op`.
pub open spec fn apply(table: Map<i64, u64>, op: TableOp) -> Map<i64, u64> {
    match op {
        TableOp::Begin { id, now_ms, timeout_ms } => table.insert(
            id,
            deadline_of(now_ms, timeout_ms),
        ),
        TableOp::Complete { id } => table.remove(id),
        TableOp::Sweep { now_ms } => after_sweep(table, now_ms),
    }
}

/// The table after all of `ops`, in order.
pub open spec fn apply_all(table: Map<i64, u64>, ops: Seq<TableOp>) -> Map<i64, u64>
    decreases ops.len(),
{
    if ops.len() == 0 {
        table
    } else {
        apply(apply_all(table, ops.drop_last()), ops.last())
    }
}

/// Whether `op` neither begins nor ends the request `id` by name.
pub open spec fn leaves_alone(op: TableOp, id: i64) -> bool {
    match op {
        TableOp::Begin { id: other, .. } => other != id,
        TableOp::Complete { id: other } => other != id,
        TableOp::Sweep { .. } => true,
    }
}

/// Whether `op` is a sweep at an instant before `deadline`, or no sweep at
/// all.
pub open spec fn sweeps_before(op: TableOp, deadline: int) -> bool {
    op matches TableOp::Sweep { now_ms } ==> now_ms < deadline
}

/// Whether operation `k` of `ops`, run on `table` after the operations
/// before it, is a sweep that reports `id`.
pub open spec fn reported_at(table: Map<i64, u64>, ops: Seq<TableOp>, k: int, id: i64) -> bool {
    ops[k] matches TableOp::Sweep { now_ms } && is_due(apply_all(table, ops.take(k)), id, now_ms)
}

/// A request stays in flight, with its deadline, through operations that
/// leave it alone, as long as every sweep among them comes before the
/// deadline; the first sweep at or after the deadline removes it, and it
/// does not come back.
proof fn lemma_in_flight_until_swept(
    table: Map<i64, u64>,
    id: i64,
    deadline: u64,
    ops: Seq<TableOp>,
    k: int,
)
    requires
        0 <= k <= ops.len(),
        table.contains_key(id),
        table[id] == deadline,
        forall|j: int| 0 <= j < k ==> leaves_alone(#[trigger] ops[j], id),
    ensures
        apply_all(table, ops.take(k)).contains_key(id) <==> forall|j: int|
            0 <= j < k ==> sweeps_before(#[trigger] ops[j], deadline as int),
        apply_all(table, ops.take(k)).contains_key(id) ==> apply_all(table, ops.take(k))[id]
            == deadline,
    decreases k,
{
    if k == 0 {
        assert(ops.take(0) =~= Seq::<TableOp>::empty());
    } else {
        lemma_in_flight_until_swept(table, id, deadline, ops, k - 1);
        assert(ops.take(k).drop_last() =~= ops.take(k - 1));
        assert(ops.take(k).last() == ops[k - 1]);
        assert(leaves_alone(ops[k - 1], id));
        let before = apply_all(table, ops.take(k - 1));
        let after = apply_all(table, ops.take(k));
        assert(after == apply(before, ops[k - 1]));
        if forall|j: int| 0 <= j < k ==> sweeps_before(#[trigger] ops[j], deadline as int) {
            assert forall|j: int| 0 <= j < k - 1 implies sweeps_before(
                #[trigger] ops[j],
                deadline as int,
            ) by {}
            assert(sweeps_before(ops[k - 1], deadline as int));
            assert(after.contains_key(id));
        }
        if after.contains_key(id) {
            assert(before.contains_key(id));
            assert forall|j: int| 0 <= j < k implies sweeps_before(
                #[trigger] ops[j],
                deadline as int,
            ) by {
                if j == k - 1 {
                } else {
                    assert(sweeps_before(ops[j], deadline as int));
                }
            }
        }
    }
}

/// A request begun at `now_ms` with `timeout_ms` is reported by no sweep
/// before `now_ms + timeout_ms` and by the first sweep at or after it, as
/// long as that instant is within the clock's range and nothing in between
/// ends the request or begins it again.
pub proof fn lemma_reported_by_first_sweep_due(
    table: Map<i64, u64>,
    id: i64,
    now_ms: u64,
    timeout_ms: u64,
    ops: Seq<TableOp>,
    k: int,
)
    requires
        now_ms + timeout_ms <= u64::MAX,
        0 <= k < ops.len(),
        forall|j: int| 0 <= j < ops.len() ==> leaves_alone(#[trigger] ops[j], id),
        ops[k] is Sweep,
    ensures
        reported_at(table.insert(id, deadline_of(now_ms, timeout_ms)), ops, k, id) <==> ops[k]->Sweep_now_ms
            >= now_ms + timeout_ms && forall|j: int|
            0 <= j < k ==> sweeps_before(#[trigger] ops[j], now_ms + timeout_ms),
{
    let begun = table.insert(id, deadline_of(now_ms, timeout_ms));
    lemma_in_flight_until_swept(begun, id, deadline_of(now_ms, timeout_ms), ops, k);
}

/// Across any sequence of operations that leave it alone, a request is
/// reported by at most one sweep.
pub proof fn lemma_reported_once(
    table: Map<i64, u64>,
    id: i64,
    now_ms: u64,
    timeout_ms: u64,
    ops: Seq<TableOp>,
    k1: int,
    k2: int,
)
    requires
        0 <= k1 < ops.len(),
        0 <= k2 < ops.len(),
        forall|j: int| 0 <= j < ops.len() ==> leaves_alone(#[trigger] ops[j], id),
        reported_at(table.insert(id, deadline_of(now_ms, timeout_ms)), ops, k1, id),
        reported_at(table.insert(id, deadline_of(now_ms, timeout_ms)), ops, k2, id),
    ensures
        k1 == k2,
{
    let begun = table.insert(id, deadline_of(now_ms, timeout_ms));
    let deadline = deadline_of(now_ms, timeout_ms);
    lemma_in_flight_until_swept(begun, id, deadline, ops, k1);
    lemma_in_flight_until_swept(begun, id, deadline, ops, k2);
    if k1 < k2 {
        assert(sweeps_before(ops[k1], deadline as int));
    } else if k2 < k1 {
        assert(sweeps_before(ops[k2], deadline as int));
    }
}

} // verus!
