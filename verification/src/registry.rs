//! The frontend's table of pending workflow requests: each request id that is
//! in flight is mapped to whatever the frontend needs to answer it later.

use vstd::prelude::*;

verus! {

/// An operation on the table of pending requests, over ids and values as the
/// table's view sees them.
pub enum TableOp<T> {
    /// `register` of a value under an id.
    Register(Seq<char>, T),
    /// `take` of an id.
    Take(Seq<char>),
}

/// The table after one operation: a registration of an id that is pending
/// changes nothing; a take removes the id.
pub open spec fn after_op<T>(table: Map<Seq<char>, T>, op: TableOp<T>) -> Map<Seq<char>, T> {
    match op {
        TableOp::Register(id, value) => if table.contains_key(id) { table } else { table.insert(id, value) },
        TableOp::Take(id) => table.remove(id),
    }
}

/// What a take of `id` hands back from `table`.
pub open spec fn taken<T>(table: Map<Seq<char>, T>, id: Seq<char>) -> Option<T> {
    if table.contains_key(id) { Some(table[id]) } else { None }
}

/// The table after the operations `ops`, in order.
pub open spec fn after_ops<T>(table: Map<Seq<char>, T>, ops: Seq<TableOp<T>>) -> Map<Seq<char>, T>
    decreases ops.len(),
{
    if ops.len() == 0 { table } else { after_ops(after_op(table, ops[0]), ops.drop_first()) }
}

/// Pending requests keyed by request id. No id occurs twice.
pub struct PendingRequests<T> {
    entries: Vec<(String, T)>,
}

impl<T> PendingRequests<T> {
    /// The ids of the entries, in storage order.
    pub closed spec fn ids(self) -> Seq<Seq<char>> {
        self.entries@.map_values(|e: (String, T)| e.0@)
    }

    /// Well-formedness: no request id is stored twice.
    pub closed spec fn wf(self) -> bool {
        self.ids().no_duplicates()
    }

    /// The index at which `id` is stored (meaningful when it is stored).
    closed spec fn slot(self, id: Seq<char>) -> int {
        choose|i: int| 0 <= i < self.entries@.len() && self.entries@[i].0@ == id
    }

    /// The pending requests as a map from request id to its stored value.
    pub closed spec fn as_map(self) -> Map<Seq<char>, T> {
        Map::new(
            |id: Seq<char>| self.ids().contains(id),
            |id: Seq<char>| self.entries@[self.slot(id)].1,
        )
    }

    proof fn lemma_entry(self, i: int)
        requires
            self.wf(),
            0 <= i < self.entries@.len(),
        ensures
            self.as_map().contains_key(self.entries@[i].0@),
            self.as_map()[self.entries@[i].0@] == self.entries@[i].1,
    {
        let id = self.entries@[i].0@;
        assert(self.ids()[i] == id);
        let j = self.slot(id);
        assert(self.ids()[j] == id);
        assert(i == j);
    }

    /// An empty table.
    pub fn new() -> (r: Self)
        ensures
            r.wf(),
            r@ == Map::<Seq<char>, T>::empty(),
    {
        let r = PendingRequests { entries: Vec::new() };
        assert(r@ =~= Map::<Seq<char>, T>::empty());
        r
    }

    /// The index of `id` in the table, if it is there.
    fn position(&self, id: &String) -> (r: Option<usize>)
        requires
            self.wf(),
        ensures
            match r {
                Some(i) => i < self.entries@.len() && self.entries@[i as int].0@ == id@,
                None => !self@.contains_key(id@),
            },
    {
        let mut i: usize = 0;
        while i < self.entries.len()
            invariant
                i <= self.entries@.len(),
                forall|j: int| 0 <= j < i ==> self.entries@[j].0@ != id@,
            decreases self.entries@.len() - i,
        {
            if self.entries[i].0 == *id {
                return Some(i);
            }
            i = i + 1;
        }
        proof {
            if self.ids().contains(id@) {
                let k = choose|k: int| 0 <= k < self.ids().len() && self.ids()[k] == id@;
                assert(self.entries@[k].0@ == id@);
            }
        }
        None
    }

    /// Whether `id` is pending.
    pub fn contains(&self, id: &String) -> (r: bool)
        requires
            self.wf(),
        ensures
            r == self@.contains_key(id@),
    {
        match self.position(id) {
            Some(i) => {
                proof { self.lemma_entry(i as int); }
                true
            },
            None => false,
        }
    }

    /// Records `value` as the pending entry of `id`. An id that is already
    /// pending is refused: the table is left as it was and `value` is handed back.
    pub fn register(&mut self, id: String, value: T) -> (r: Result<(), T>)
        requires
            old(self).wf(),
        ensures
            final(self).wf(),
            r is Ok <==> !old(self)@.contains_key(id@),
            r is Ok ==> final(self)@ == old(self)@.insert(id@, value),
            r matches Err(v) ==> v == value && final(self)@ == old(self)@,
            final(self)@ == after_op(old(self)@, TableOp::Register(id@, value)),
    {
        if self.contains(&id) {
            return Err(value);
        }
        let ghost old_self = *self;
        let ghost key = id@;
        self.entries.push((id, value));
        proof {
            let n = old_self.entries@.len();
            assert(self.ids() =~= old_self.ids().push(key));
            assert(self.wf()) by {
                assert forall|a: int, b: int|
                    0 <= a < self.ids().len() && 0 <= b < self.ids().len() && a != b implies
                    self.ids()[a] != self.ids()[b] by {
                    if a == n as int {
                        assert(old_self.ids()[b] == self.ids()[b]);
                        assert(!old_self.ids().contains(key));
                    } else if b == n as int {
                        assert(old_self.ids()[a] == self.ids()[a]);
                        assert(!old_self.ids().contains(key));
                    }
                }
            }
            assert forall|k: Seq<char>| #[trigger] self@.contains_key(k) <==> old_self@.insert(key, value).contains_key(k) by {
                if self.ids().contains(k) {
                    let j = choose|j: int| 0 <= j < self.ids().len() && self.ids()[j] == k;
                    if j < n {
                        assert(old_self.ids()[j] == k);
                    }
                }
                if old_self.ids().contains(k) {
                    let j = choose|j: int| 0 <= j < old_self.ids().len() && old_self.ids()[j] == k;
                    assert(self.ids()[j] == k);
                }
                if k == key {
                    assert(self.ids()[n as int] == k);
                }
            }
            assert forall|k: Seq<char>| #[trigger] self@.contains_key(k) implies self@[k] == old_self@.insert(key, value)[k] by {
                let j = choose|j: int| 0 <= j < self.ids().len() && self.ids()[j] == k;
                self.lemma_entry(j);
                if j < n {
                    assert(old_self.entries@[j] == self.entries@[j]);
                    old_self.lemma_entry(j);
                    assert(k != key);
                }
            }
            assert(self@ =~= old_self@.insert(key, value));
        }
        Ok(())
    }

    /// Removes the entry of `id` and hands back its value; `None`, with the
    /// table unchanged, where `id` is not pending.
    pub fn take(&mut self, id: &String) -> (r: Option<T>)
        requires
            old(self).wf(),
        ensures
            final(self).wf(),
            final(self)@ == old(self)@.remove(id@),
            r is Some <==> old(self)@.contains_key(id@),
            r matches Some(v) ==> v == old(self)@[id@],
            r == taken(old(self)@, id@),
            final(self)@ == after_op(old(self)@, TableOp::Take(id@)),
    {
        match self.position(id) {
            None => {
                assert(self@ =~= self@.remove(id@));
                None
            },
            Some(i) => {
                let ghost old_self = *self;
                proof { old_self.lemma_entry(i as int); }
                let (_, value) = self.entries.remove(i);
                proof {
                    let n = old_self.entries@.len();
                    assert(self.ids() =~= old_self.ids().remove(i as int));
                    assert forall|a: int, b: int|
                        0 <= a < self.ids().len() && 0 <= b < self.ids().len() && a != b implies
                        self.ids()[a] != self.ids()[b] by {
                        let oa = if a < i { a } else { a + 1 };
                        let ob = if b < i { b } else { b + 1 };
                        assert(self.ids()[a] == old_self.ids()[oa]);
                        assert(self.ids()[b] == old_self.ids()[ob]);
                    }
                    assert(self.wf());
                    assert forall|k: Seq<char>| #[trigger] self@.contains_key(k) <==> old_self@.remove(id@).contains_key(k) by {
                        if self.ids().contains(k) {
                            let j = choose|j: int| 0 <= j < self.ids().len() && self.ids()[j] == k;
                            let oj = if j < i { j } else { j + 1 };
                            assert(old_self.ids()[oj] == k);
                            assert(old_self.ids()[i as int] == id@);
                        }
                        if old_self.ids().contains(k) && k != id@ {
                            let j = choose|j: int| 0 <= j < old_self.ids().len() && old_self.ids()[j] == k;
                            assert(j != i);
                            let nj = if j < i { j } else { j - 1 };
                            assert(self.ids()[nj] == k);
                        }
                    }
                    assert forall|k: Seq<char>| #[trigger] self@.contains_key(k) implies self@[k] == old_self@.remove(id@)[k] by {
                        let j = choose|j: int| 0 <= j < self.ids().len() && self.ids()[j] == k;
                        self.lemma_entry(j);
                        let oj = if j < i { j } else { j + 1 };
                        assert(old_self.entries@[oj] == self.entries@[j]);
                        old_self.lemma_entry(oj);
                    }
                    assert(self@ =~= old_self@.remove(id@));
                }
                Some(value)
            },
        }
    }
}

impl<T> View for PendingRequests<T> {
    type V = Map<Seq<char>, T>;

    closed spec fn view(&self) -> Map<Seq<char>, T> {
        self.as_map()
    }
}

/// What a take gives back is what the registration wrote: registering a
/// fresh id and then taking it hands back the registered value and leaves the
/// table as it was before the registration.
pub proof fn law_take_after_register<T>(table: Map<Seq<char>, T>, id: Seq<char>, value: T)
    requires
        !table.contains_key(id),
    ensures
        table.insert(id, value).contains_key(id),
        table.insert(id, value)[id] == value,
        table.insert(id, value).remove(id) == table,
{
    assert(table.insert(id, value).remove(id) =~= table);
}

/// A taken id is no longer pending: taking it a second time finds nothing,
/// and registering it again is accepted.
pub proof fn law_take_forgets<T>(table: Map<Seq<char>, T>, id: Seq<char>)
    ensures
        !table.remove(id).contains_key(id),
{
}

/// Registering or taking one id leaves the entry of every other id as it was.
pub proof fn law_other_ids_untouched<T>(table: Map<Seq<char>, T>, id: Seq<char>, other: Seq<char>, value: T)
    requires
        other != id,
    ensures
        table.insert(id, value).contains_key(other) == table.contains_key(other),
        table.remove(id).contains_key(other) == table.contains_key(other),
        table.contains_key(other) ==> table.insert(id, value)[other] == table[other],
        table.contains_key(other) ==> table.remove(id)[other] == table[other],
{
}

/// An entry survives every sequence of operations that does not take its
/// id: registrations and takes of other ids leave it, and a registration of
/// its own id is refused and does not replace it.
pub proof fn law_pending_entry_survives<T>(
    table: Map<Seq<char>, T>,
    id: Seq<char>,
    value: T,
    ops: Seq<TableOp<T>>,
)
    requires
        table.contains_key(id),
        table[id] == value,
        forall|i: int| 0 <= i < ops.len() ==> ops[i] != TableOp::<T>::Take(id),
    ensures
        after_ops(table, ops).contains_key(id),
        after_ops(table, ops)[id] == value,
    decreases ops.len(),
{
    if ops.len() > 0 {
        let next = after_op(table, ops[0]);
        assert(ops[0] != TableOp::<T>::Take(id));
        match ops[0] {
            TableOp::Register(k, v) => {},
            TableOp::Take(k) => { assert(k != id); },
        }
        assert(next.contains_key(id) && next[id] == value);
        assert forall|i: int| 0 <= i < ops.drop_first().len() implies ops.drop_first()[i] != TableOp::<T>::Take(id) by {
            assert(ops.drop_first()[i] == ops[i + 1]);
        }
        law_pending_entry_survives(next, id, value, ops.drop_first());
    }
}

/// An id that is not pending stays so through every sequence of operations
/// that does not register it: no take of it hands anything back.
pub proof fn law_absent_id_stays_absent<T>(table: Map<Seq<char>, T>, id: Seq<char>, ops: Seq<TableOp<T>>)
    requires
        !table.contains_key(id),
        forall|i: int| 0 <= i < ops.len() ==> !(#[trigger] ops[i] matches TableOp::Register(k, _) && k == id),
    ensures
        !after_ops(table, ops).contains_key(id),
        taken(after_ops(table, ops), id) is None,
    decreases ops.len(),
{
    if ops.len() > 0 {
        let next = after_op(table, ops[0]);
        assert(!(ops[0] matches TableOp::Register(k, _) && k == id));
        assert(!next.contains_key(id));
        assert forall|i: int| 0 <= i < ops.drop_first().len() implies
            !(#[trigger] ops.drop_first()[i] matches TableOp::Register(k, _) && k == id) by {
            assert(ops.drop_first()[i] == ops[i + 1]);
        }
        law_absent_id_stays_absent(next, id, ops.drop_first());
    }
}

/// The first take of a pending id, after any operations that do not take it,
/// hands back the value registered under it; once taken, no later take hands
/// anything back until the id is registered anew.
pub proof fn law_first_take_hands_back<T>(
    table: Map<Seq<char>, T>,
    id: Seq<char>,
    value: T,
    before: Seq<TableOp<T>>,
    after: Seq<TableOp<T>>,
)
    requires
        table.contains_key(id),
        table[id] == value,
        forall|i: int| 0 <= i < before.len() ==> before[i] != TableOp::<T>::Take(id),
        forall|i: int| 0 <= i < after.len() ==> !(#[trigger] after[i] matches TableOp::Register(k, _) && k == id),
    ensures
        taken(after_ops(table, before), id) == Some(value),
        taken(after_ops(after_op(after_ops(table, before), TableOp::Take(id)), after), id) is None,
{
    law_pending_entry_survives(table, id, value, before);
    law_absent_id_stays_absent(after_op(after_ops(table, before), TableOp::Take(id)), id, after);
}

} // verus!
