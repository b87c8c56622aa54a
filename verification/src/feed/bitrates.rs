//! The bitrates that the clients can take, and the one bitrate that the
//! shared feed is encoded at: that of the slowest client, within the
//! configured bounds.
use vstd::prelude::*;

verus! {

/// No client is in `table`.
pub open spec fn no_clients(table: Map<Seq<char>, u32>) -> bool {
    forall|id: Seq<char>| !table.dom().contains(id)
}

/// `bitrate` is the lowest bitrate in `table`: some client has it, and none
/// has less.
pub open spec fn is_lowest(table: Map<Seq<char>, u32>, bitrate: u32) -> bool {
    &&& exists|id: Seq<char>| table.dom().contains(id) && #[trigger] table[id] == bitrate
    &&& forall|id: Seq<char>| table.dom().contains(id) ==> #[trigger] table[id] >= bitrate
}

/// The lowest bitrate in `table`; none where the table is empty.
pub open spec fn lowest(table: Map<Seq<char>, u32>) -> Option<u32> {
    if exists|bitrate: u32| is_lowest(table, bitrate) {
        Some(choose|bitrate: u32| is_lowest(table, bitrate))
    } else {
        None
    }
}

/// `bitrate` held to the bounds `min` and `max`, where a bound of 0 is no
/// bound.
pub open spec fn clamp_bitrate(bitrate: u32, min: u32, max: u32) -> u32 {
    if min != 0 && bitrate < min {
        min
    } else if max != 0 && bitrate > max {
        max
    } else {
        bitrate
    }
}

/// Bounds that can be met: the minimum does not lie above the maximum.
pub open spec fn bounds_ordered(min: u32, max: u32) -> bool {
    min == 0 || max == 0 || min <= max
}

/// The bitrate to encode at: the lowest of the clients' bitrates, or `start`
/// while there is no client, held to the bounds.
pub open spec fn target_bitrate(table: Map<Seq<char>, u32>, start: u32, min: u32, max: u32) -> u32 {
    clamp_bitrate(
        match lowest(table) {
            Some(bitrate) => bitrate,
            None => start,
        },
        min,
        max,
    )
}

/// A table has at most one lowest bitrate.
pub proof fn lemma_lowest_unique(table: Map<Seq<char>, u32>, a: u32, b: u32)
    requires
        is_lowest(table, a),
        is_lowest(table, b),
    ensures
        a == b,
{
}

/// What is the lowest bitrate of a table is what `lowest` gives.
pub proof fn lemma_lowest_is(table: Map<Seq<char>, u32>, bitrate: u32)
    requires
        is_lowest(table, bitrate),
    ensures
        lowest(table) == Some(bitrate),
{
    let chosen = choose|b: u32| is_lowest(table, b);
    lemma_lowest_unique(table, chosen, bitrate);
}

/// A table with a client in it has a lowest bitrate.
pub proof fn lemma_lowest_exists(table: Map<Seq<char>, u32>, id: Seq<char>)
    requires
        table.dom().contains(id),
    ensures
        lowest(table) matches Some(bitrate) && is_lowest(table, bitrate) && bitrate <= table[id],
    decreases table[id],
{
    if forall|other: Seq<char>| table.dom().contains(other) ==> #[trigger] table[other] >= table[id] {
        assert(is_lowest(table, table[id]));
        lemma_lowest_is(table, table[id]);
    } else {
        let other = choose|other: Seq<char>|
            table.dom().contains(other) && !(#[trigger] table[other] >= table[id]);
        lemma_lowest_exists(table, other);
    }
}

/// A table without clients has no lowest bitrate.
pub proof fn lemma_lowest_of_empty(table: Map<Seq<char>, u32>)
    requires
        no_clients(table),
    ensures
        lowest(table) is None,
{
}

/// The target never leaves the bounds.
pub proof fn lemma_target_within_bounds(
    table: Map<Seq<char>, u32>,
    start: u32,
    min: u32,
    max: u32,
)
    requires
        bounds_ordered(min, max),
    ensures
        min != 0 ==> target_bitrate(table, start, min, max) >= min,
        max != 0 ==> target_bitrate(table, start, min, max) <= max,
{
}

/// A new client that can take more than the current target leaves the target
/// as it is, as long as there was a client before.
pub proof fn lemma_faster_peer_keeps_target(
    table: Map<Seq<char>, u32>,
    start: u32,
    min: u32,
    max: u32,
    id: Seq<char>,
    bitrate: u32,
)
    requires
        bounds_ordered(min, max),
        exists|other: Seq<char>| table.dom().contains(other),
        !table.dom().contains(id),
        bitrate > target_bitrate(table, start, min, max),
    ensures
        target_bitrate(table.insert(id, bitrate), start, min, max) == target_bitrate(
            table,
            start,
            min,
            max,
        ),
{
    let other = choose|other: Seq<char>| table.dom().contains(other);
    lemma_lowest_exists(table, other);
    let before = lowest(table)->Some_0;
    let joined = table.insert(id, bitrate);
    let after = if bitrate < before {
        bitrate
    } else {
        before
    };
    let holder = choose|holder: Seq<char>|
        table.dom().contains(holder) && #[trigger] table[holder] == before;
    assert(joined.dom().contains(holder) && joined[holder] == before);
    assert(joined.dom().contains(id) && joined[id] == bitrate);
    assert forall|each: Seq<char>| joined.dom().contains(each) implies #[trigger] joined[each]
        >= after by {
        if each != id {
            assert(table.dom().contains(each) && table[each] == joined[each]);
        }
    }
    assert(is_lowest(joined, after));
    lemma_lowest_is(joined, after);
}

/// When the one client with the lowest bitrate leaves and others stay, the
/// lowest bitrate rises. The target does not fall, and it rises too unless a
/// bound holds it: where neither the old nor the new lowest bitrate is cut by
/// a bound.
pub proof fn lemma_slowest_peer_leaves(
    table: Map<Seq<char>, u32>,
    start: u32,
    min: u32,
    max: u32,
    id: Seq<char>,
)
    requires
        bounds_ordered(min, max),
        table.dom().contains(id),
        exists|other: Seq<char>| other != id && table.dom().contains(other),
        forall|other: Seq<char>|
            other != id && table.dom().contains(other) ==> #[trigger] table[other] > table[id],
    ensures
        lowest(table) == Some(table[id]),
        lowest(table.remove(id)) matches Some(risen) && risen > table[id] && {
            &&& target_bitrate(table.remove(id), start, min, max) >= target_bitrate(
                table,
                start,
                min,
                max,
            )
            &&& clamp_bitrate(table[id], min, max) == table[id] && clamp_bitrate(risen, min, max)
                == risen ==> target_bitrate(table.remove(id), start, min, max) > target_bitrate(
                table,
                start,
                min,
                max,
            )
        },
{
    assert(is_lowest(table, table[id]));
    lemma_lowest_is(table, table[id]);
    let rest = table.remove(id);
    let other = choose|other: Seq<char>| other != id && table.dom().contains(other);
    assert(rest.dom().contains(other));
    lemma_lowest_exists(rest, other);
    let risen = lowest(rest)->Some_0;
    let holder = choose|holder: Seq<char>|
        rest.dom().contains(holder) && #[trigger] rest[holder] == risen;
    assert(holder != id && table.dom().contains(holder) && table[holder] == risen);
}

/// The clients' bitrates: for each client id the bandwidth estimate that
/// came last, in kbps. They are kept as a list in which no id stands twice.
pub struct ClientBitrates {
    entries: Vec<(String, u32)>,
}

/// The table that a list of entries with distinct ids stands for.
pub closed spec fn table_of(entries: Seq<(String, u32)>) -> Map<Seq<char>, u32> {
    Map::new(
        |id: Seq<char>| exists|i: int| 0 <= i < entries.len() && (#[trigger] entries[i]).0@ == id,
        |id: Seq<char>|
            entries[choose|i: int| 0 <= i < entries.len() && (#[trigger] entries[i]).0@ == id].1,
    )
}

spec fn distinct_ids(entries: Seq<(String, u32)>) -> bool {
    forall|i: int, j: int|
        0 <= i < j < entries.len() ==> (#[trigger] entries[i]).0@ != (#[trigger] entries[j]).0@
}

proof fn lemma_entry_in_table(entries: Seq<(String, u32)>, index: int)
    requires
        distinct_ids(entries),
        0 <= index < entries.len(),
    ensures
        table_of(entries).dom().contains(entries[index].0@),
        table_of(entries)[entries[index].0@] == entries[index].1,
{
    let id = entries[index].0@;
    let chosen = choose|i: int| 0 <= i < entries.len() && (#[trigger] entries[i]).0@ == id;
    assert(chosen == index);
}

impl View for ClientBitrates {
    type V = Map<Seq<char>, u32>;

    closed spec fn view(&self) -> Map<Seq<char>, u32> {
        table_of(self.entries@)
    }
}

impl ClientBitrates {
    #[verifier::type_invariant]
    spec fn well_formed(&self) -> bool {
        distinct_ids(self.entries@)
    }

    /// A table without clients.
    pub fn new() -> (table: Self)
        ensures
            table@ == Map::<Seq<char>, u32>::empty(),
    {
        let table = ClientBitrates { entries: Vec::new() };
        assert(table@ =~= Map::<Seq<char>, u32>::empty());
        table
    }

    fn position(&self, id: &String) -> (found: Option<usize>)
        ensures
            match found {
                Some(index) => index < self.entries@.len() && self.entries@[index as int].0@
                    == id@,
                None => forall|i: int|
                    0 <= i < self.entries@.len() ==> (#[trigger] self.entries@[i]).0@ != id@,
            },
    {
        let mut index: usize = 0;
        while index < self.entries.len()
            invariant
                index <= self.entries@.len(),
                forall|i: int| 0 <= i < index ==> (#[trigger] self.entries@[i]).0@ != id@,
            decreases self.entries@.len() - index,
        {
            if self.entries[index].0 == *id {
                return Some(index);
            }
            index += 1;
        }
        None
    }

    /// Whether no client is in the table.
    pub fn is_empty(&self) -> (empty: bool)
        ensures
            empty == no_clients(self@),
    {
        let empty = self.entries.len() == 0;
        proof {
            use_type_invariant(self);
            if empty {
                assert forall|id: Seq<char>| !self@.dom().contains(id) by {}
            } else {
                lemma_entry_in_table(self.entries@, 0);
                assert(self@.dom().contains(self.entries@[0].0@));
            }
        }
        empty
    }

    /// The bitrate on record for a client.
    pub fn get(&self, id: &String) -> (bitrate: Option<u32>)
        ensures
            bitrate == if self@.dom().contains(id@) {
                Some(self@[id@])
            } else {
                None
            },
    {
        proof {
            use_type_invariant(self);
        }
        match self.position(id) {
            Some(index) => {
                proof {
                    lemma_entry_in_table(self.entries@, index as int);
                }
                Some(self.entries[index].1)
            },
            None => None,
        }
    }

    /// Records `bitrate` for the client `id`, in place of what was on record
    /// for it.
    pub fn insert(&mut self, id: String, bitrate: u32)
        ensures
            final(self)@ == old(self)@.insert(id@, bitrate),
    {
        proof {
            use_type_invariant(&*self);
        }
        let ghost before = self.entries@;
        let ghost key = id@;
        let found = self.position(&id);
        let mut entries: Vec<(String, u32)> = Vec::new();
        core::mem::swap(&mut self.entries, &mut entries);
        match found {
            Some(index) => {
                entries[index] = (id, bitrate);
                proof {
                    let after = entries@;
                    assert forall|i: int, j: int| 0 <= i < j < after.len() implies (
                    #[trigger] after[i]).0@ != (#[trigger] after[j]).0@ by {
                        assert(after[i].0@ == before[i].0@);
                        assert(after[j].0@ == before[j].0@);
                    }
                    lemma_table_after_update(before, after, index as int, key, bitrate);
                }
            },
            None => {
                entries.push((id, bitrate));
                proof {
                    let after = entries@;
                    assert forall|i: int, j: int| 0 <= i < j < after.len() implies (
                    #[trigger] after[i]).0@ != (#[trigger] after[j]).0@ by {
                        assert(after[i] == before[i]);
                        if j < before.len() {
                            assert(after[j] == before[j]);
                        }
                    }
                    lemma_table_after_push(before, after, key, bitrate);
                }
            },
        }
        self.entries = entries;
    }

    /// Strikes the client `id` from the table, if it is in it.
    pub fn remove(&mut self, id: &String)
        ensures
            final(self)@ == old(self)@.remove(id@),
    {
        proof {
            use_type_invariant(&*self);
        }
        let ghost before = self.entries@;
        match self.position(id) {
            Some(index) => {
                let mut entries: Vec<(String, u32)> = Vec::new();
                core::mem::swap(&mut self.entries, &mut entries);
                entries.remove(index);
                proof {
                    let after = entries@;
                    assert(after =~= before.remove(index as int));
                    assert forall|i: int, j: int| 0 <= i < j < after.len() implies (
                    #[trigger] after[i]).0@ != (#[trigger] after[j]).0@ by {
                        let from_i = if i < index { i } else { i + 1 };
                        let from_j = if j < index { j } else { j + 1 };
                        assert(after[i] == before[from_i]);
                        assert(after[j] == before[from_j]);
                    }
                    lemma_table_after_remove(before, after, index as int);
                }
                self.entries = entries;
            },
            None => {
                assert(self@ =~= self@.remove(id@));
            },
        }
    }

    /// The lowest bitrate on record; none while the table is empty.
    pub fn min(&self) -> (bitrate: Option<u32>)
        ensures
            bitrate == lowest(self@),
    {
        proof {
            use_type_invariant(self);
        }
        if self.entries.len() == 0 {
            proof {
                lemma_lowest_of_empty(self@);
            }
            return None;
        }
        let mut best: u32 = self.entries[0].1;
        let mut index: usize = 1;
        let ghost mut holder: int = 0;
        while index < self.entries.len()
            invariant
                1 <= index <= self.entries@.len(),
                0 <= holder < index,
                self.entries@[holder].1 == best,
                forall|i: int| 0 <= i < index ==> (#[trigger] self.entries@[i]).1 >= best,
            decreases self.entries@.len() - index,
        {
            if self.entries[index].1 < best {
                best = self.entries[index].1;
                proof {
                    holder = index as int;
                }
            }
            index += 1;
        }
        proof {
            lemma_entry_in_table(self.entries@, holder);
            assert forall|id: Seq<char>| self@.dom().contains(id) implies #[trigger] self@[id]
                >= best by {
                let i = choose|i: int|
                    0 <= i < self.entries@.len() && (#[trigger] self.entries@[i]).0@ == id;
                lemma_entry_in_table(self.entries@, i);
            }
            assert(is_lowest(self@, best));
            lemma_lowest_is(self@, best);
        }
        Some(best)
    }
}

proof fn lemma_table_after_update(
    before: Seq<(String, u32)>,
    after: Seq<(String, u32)>,
    index: int,
    id: Seq<char>,
    bitrate: u32,
)
    requires
        distinct_ids(before),
        distinct_ids(after),
        0 <= index < before.len(),
        before[index].0@ == id,
        after.len() == before.len(),
        after[index].0@ == id,
        after[index].1 == bitrate,
        forall|i: int| 0 <= i < before.len() && i != index ==> after[i] == before[i],
    ensures
        table_of(after) == table_of(before).insert(id, bitrate),
{
    let wanted = table_of(before).insert(id, bitrate);
    assert forall|key: Seq<char>| table_of(after).dom().contains(key) <==> wanted.dom().contains(
        key,
    ) by {
        if table_of(after).dom().contains(key) {
            let i = choose|i: int| 0 <= i < after.len() && (#[trigger] after[i]).0@ == key;
            assert(before[i].0@ == key);
        }
        if wanted.dom().contains(key) && key != id {
            let i = choose|i: int| 0 <= i < before.len() && (#[trigger] before[i]).0@ == key;
            assert(after[i].0@ == key);
        }
        if key == id {
            assert(after[index].0@ == key);
        }
    }
    assert forall|key: Seq<char>| table_of(after).dom().contains(key) implies table_of(
        after,
    )[key] == wanted[key] by {
        let i = choose|i: int| 0 <= i < after.len() && (#[trigger] after[i]).0@ == key;
        lemma_entry_in_table(after, i);
        if i != index {
            lemma_entry_in_table(before, i);
        }
    }
    assert(table_of(after) =~= wanted);
}

proof fn lemma_table_after_push(
    before: Seq<(String, u32)>,
    after: Seq<(String, u32)>,
    id: Seq<char>,
    bitrate: u32,
)
    requires
        distinct_ids(before),
        distinct_ids(after),
        after.len() == before.len() + 1,
        forall|i: int| 0 <= i < before.len() ==> after[i] == before[i],
        after[before.len() as int].0@ == id,
        after[before.len() as int].1 == bitrate,
    ensures
        table_of(after) == table_of(before).insert(id, bitrate),
{
    let wanted = table_of(before).insert(id, bitrate);
    let last = before.len() as int;
    assert forall|key: Seq<char>| table_of(after).dom().contains(key) <==> wanted.dom().contains(
        key,
    ) by {
        if table_of(after).dom().contains(key) {
            let i = choose|i: int| 0 <= i < after.len() && (#[trigger] after[i]).0@ == key;
            if i < last {
                assert(before[i].0@ == key);
            }
        }
        if wanted.dom().contains(key) && key != id {
            let i = choose|i: int| 0 <= i < before.len() && (#[trigger] before[i]).0@ == key;
            assert(after[i].0@ == key);
        }
        if key == id {
            assert(after[last].0@ == key);
        }
    }
    assert forall|key: Seq<char>| table_of(after).dom().contains(key) implies table_of(
        after,
    )[key] == wanted[key] by {
        let i = choose|i: int| 0 <= i < after.len() && (#[trigger] after[i]).0@ == key;
        lemma_entry_in_table(after, i);
        if i < last {
            lemma_entry_in_table(before, i);
        }
    }
    assert(table_of(after) =~= wanted);
}

proof fn lemma_table_after_remove(
    before: Seq<(String, u32)>,
    after: Seq<(String, u32)>,
    index: int,
)
    requires
        distinct_ids(before),
        distinct_ids(after),
        0 <= index < before.len(),
        after == before.remove(index),
    ensures
        table_of(after) == table_of(before).remove(before[index].0@),
{
    let id = before[index].0@;
    let wanted = table_of(before).remove(id);
    assert forall|key: Seq<char>| table_of(after).dom().contains(key) <==> wanted.dom().contains(
        key,
    ) by {
        if table_of(after).dom().contains(key) {
            let i = choose|i: int| 0 <= i < after.len() && (#[trigger] after[i]).0@ == key;
            let from = if i < index { i } else { i + 1 };
            assert(before[from].0@ == key);
        }
        if wanted.dom().contains(key) {
            let i = choose|i: int| 0 <= i < before.len() && (#[trigger] before[i]).0@ == key;
            let to = if i < index { i } else { i - 1 };
            assert(after[to].0@ == key);
        }
    }
    assert forall|key: Seq<char>| table_of(after).dom().contains(key) implies table_of(
        after,
    )[key] == wanted[key] by {
        let i = choose|i: int| 0 <= i < after.len() && (#[trigger] after[i]).0@ == key;
        let from = if i < index { i } else { i + 1 };
        lemma_entry_in_table(after, i);
        lemma_entry_in_table(before, from);
    }
    assert(table_of(after) =~= wanted);
}

} // verus!
