//! The diff engine: compares two successive snapshots and produces, per
//! participant, the minimal set of newly purchased stacks.

use vstd::prelude::*;

use crate::data::{same_identity, Item, PlayerState, Snapshot};

verus! {

/// Whether some stack in `s` shares its `(item_id, slot)` identity with `it`.
pub open spec fn has_identity(s: Seq<Item>, it: Item) -> bool {
    exists|j: int| 0 <= j < s.len() && same_identity(s[j], it)
}

/// The stacks of `cur` whose identity is absent from `prev`, in their order
/// within `cur`. Count-only changes to an identity already in `prev` are not
/// kept.
pub open spec fn fresh_items(prev: Seq<Item>, cur: Seq<Item>) -> Seq<Item>
    decreases cur.len(),
{
    if cur.len() == 0 {
        Seq::empty()
    } else {
        let rest = fresh_items(prev, cur.drop_last());
        if !has_identity(prev, cur.last()) {
            rest.push(cur.last())
        } else {
            rest
        }
    }
}

/// The item list of the first participant in `players` named `name`, or the
/// empty sequence when no participant carries that name.
pub open spec fn lookup_items(players: Seq<PlayerState>, name: Seq<char>) -> Seq<Item>
    decreases players.len(),
{
    if players.len() == 0 {
        Seq::empty()
    } else if players[0].summoner_name@ == name {
        players[0].items@
    } else {
        lookup_items(players.drop_first(), name)
    }
}

/// The new stacks of one participant in the diff output.
#[derive(Clone, Debug)]
pub struct PurchaseEntry {
    pub summoner_name: String,
    pub items: Vec<Item>,
}

/// The view of a diff entry: the participant's name as a character sequence
/// and the new stacks as a sequence.
pub struct PurchaseEntryV {
    pub summoner_name: Seq<char>,
    pub items: Seq<Item>,
}

impl View for PurchaseEntry {
    type V = PurchaseEntryV;

    open spec fn view(&self) -> PurchaseEntryV {
        PurchaseEntryV { summoner_name: self.summoner_name@, items: self.items@ }
    }
}

/// The diff of two participant lists: one entry per participant of `cur` with
/// at least one stack whose identity its `prev` item list lacks, in the order
/// of `cur`. Participants with no new stacks are omitted.
pub open spec fn diff_entries(prev: Seq<PlayerState>, cur: Seq<PlayerState>) -> Seq<
    PurchaseEntryV,
>
    decreases cur.len(),
{
    if cur.len() == 0 {
        Seq::empty()
    } else {
        let rest = diff_entries(prev, cur.drop_last());
        let p = cur.last();
        let fresh = fresh_items(lookup_items(prev, p.summoner_name@), p.items@);
        if fresh.len() > 0 {
            rest.push(PurchaseEntryV { summoner_name: p.summoner_name@, items: fresh })
        } else {
            rest
        }
    }
}

/// No false positives, no false negatives: a stack is in the fresh list
/// exactly when it is a current stack whose identity the previous list lacks.
pub proof fn lemma_fresh_items_characterize(prev: Seq<Item>, cur: Seq<Item>)
    ensures
        forall|it: Item|
            #[trigger] fresh_items(prev, cur).contains(it) <==> (cur.contains(it)
                && !has_identity(prev, it)),
    decreases cur.len(),
{
    if cur.len() == 0 {
        assert(forall|it: Item| !cur.contains(it));
    } else {
        lemma_fresh_items_characterize(prev, cur.drop_last());
        assert forall|it: Item| cur.contains(it) implies cur.drop_last().contains(it) || it
            == cur.last() by {
            let j = choose|j: int| 0 <= j < cur.len() && cur[j] == it;
            if j < cur.len() - 1 {
                assert(cur.drop_last()[j] == it);
            }
        }
        assert forall|it: Item| cur.drop_last().contains(it) implies cur.contains(it) by {
            let j = choose|j: int| 0 <= j < cur.drop_last().len() && cur.drop_last()[j] == it;
            assert(cur[j] == it);
        }
        assert(cur[cur.len() - 1] == cur.last());
        let rest = fresh_items(prev, cur.drop_last());
        if !has_identity(prev, cur.last()) {
            assert forall|it: Item| #[trigger] fresh_items(prev, cur).contains(it) implies (
            cur.contains(it) && !has_identity(prev, it)) by {
                let j = choose|j: int|
                    0 <= j < fresh_items(prev, cur).len() && fresh_items(prev, cur)[j] == it;
                if j < rest.len() {
                    assert(rest[j] == it);
                    assert(rest.contains(it));
                }
            }
            assert forall|it: Item| cur.contains(it) && !has_identity(prev, it) implies #[trigger]
            fresh_items(prev, cur).contains(it) by {
                if cur.drop_last().contains(it) {
                    assert(fresh_items(prev, cur.drop_last()).contains(it));
                    let j = choose|j: int| 0 <= j < rest.len() && rest[j] == it;
                    assert(fresh_items(prev, cur)[j] == it);
                } else {
                    assert(fresh_items(prev, cur).last() == it);
                }
            }
        } else {
            assert(fresh_items(prev, cur) == rest);
            assert forall|it: Item| cur.contains(it) && !has_identity(prev, it) implies #[trigger]
            fresh_items(prev, cur).contains(it) by {
                assert(it != cur.last());
                assert(cur.drop_last().contains(it));
                assert(fresh_items(prev, cur.drop_last()).contains(it));
            }
        }
    }
}

/// A participant whose current stacks all keep identities already present in
/// its previous list - count changes included - contributes no fresh stacks.
pub proof fn lemma_no_new_identities(prev: Seq<Item>, cur: Seq<Item>)
    requires
        forall|t: int| 0 <= t < cur.len() ==> has_identity(prev, #[trigger] cur[t]),
    ensures
        fresh_items(prev, cur).len() == 0,
{
    lemma_fresh_items_characterize(prev, cur);
    if fresh_items(prev, cur).len() > 0 {
        let it = fresh_items(prev, cur)[0];
        assert(fresh_items(prev, cur).contains(it));
        let j = choose|j: int| 0 <= j < cur.len() && cur[j] == it;
    }
}

/// Every diff entry belongs to a current participant whose fresh stack list
/// it carries, and that list is nonempty.
pub proof fn lemma_diff_entries_sound(prev: Seq<PlayerState>, cur: Seq<PlayerState>)
    ensures
        forall|k: int|
            0 <= k < diff_entries(prev, cur).len() ==> exists|i: int|
                0 <= i < cur.len() && #[trigger] diff_entries(prev, cur)[k].summoner_name
                    == cur[i].summoner_name@ && diff_entries(prev, cur)[k].items == fresh_items(
                    lookup_items(prev, cur[i].summoner_name@),
                    cur[i].items@,
                ) && diff_entries(prev, cur)[k].items.len() > 0,
    decreases cur.len(),
{
    if cur.len() == 0 {
    } else {
        lemma_diff_entries_sound(prev, cur.drop_last());
        let rest = diff_entries(prev, cur.drop_last());
        assert forall|k: int| 0 <= k < diff_entries(prev, cur).len() implies exists|i: int|
            0 <= i < cur.len() && #[trigger] diff_entries(prev, cur)[k].summoner_name
                == cur[i].summoner_name@ && diff_entries(prev, cur)[k].items == fresh_items(
                lookup_items(prev, cur[i].summoner_name@),
                cur[i].items@,
            ) && diff_entries(prev, cur)[k].items.len() > 0 by {
            if k < rest.len() {
                let i = choose|i: int|
                    0 <= i < cur.drop_last().len() && rest[k].summoner_name
                        == cur.drop_last()[i].summoner_name@ && rest[k].items == fresh_items(
                        lookup_items(prev, cur.drop_last()[i].summoner_name@),
                        cur.drop_last()[i].items@,
                    ) && rest[k].items.len() > 0;
                assert(cur.drop_last()[i] == cur[i]);
                assert(diff_entries(prev, cur)[k] == rest[k]);
            } else {
                assert(diff_entries(prev, cur)[k] == diff_entries(prev, cur).last());
                assert(cur[cur.len() - 1] == cur.last());
            }
        }
    }
}

/// Every current participant with at least one fresh stack appears in the
/// diff, carrying exactly its fresh stack list.
pub proof fn lemma_diff_entries_complete(prev: Seq<PlayerState>, cur: Seq<PlayerState>)
    ensures
        forall|i: int|
            0 <= i < cur.len() && fresh_items(
                lookup_items(prev, #[trigger] cur[i].summoner_name@),
                cur[i].items@,
            ).len() > 0 ==> exists|k: int|
                0 <= k < diff_entries(prev, cur).len() && diff_entries(prev, cur)[k].summoner_name
                    == cur[i].summoner_name@ && diff_entries(prev, cur)[k].items == fresh_items(
                    lookup_items(prev, cur[i].summoner_name@),
                    cur[i].items@,
                ),
    decreases cur.len(),
{
    if cur.len() == 0 {
    } else {
        lemma_diff_entries_complete(prev, cur.drop_last());
        let rest = diff_entries(prev, cur.drop_last());
        assert forall|i: int|
            0 <= i < cur.len() && fresh_items(
                lookup_items(prev, #[trigger] cur[i].summoner_name@),
                cur[i].items@,
            ).len() > 0 implies exists|k: int|
            0 <= k < diff_entries(prev, cur).len() && diff_entries(prev, cur)[k].summoner_name
                == cur[i].summoner_name@ && diff_entries(prev, cur)[k].items == fresh_items(
                lookup_items(prev, cur[i].summoner_name@),
                cur[i].items@,
            ) by {
            if i < cur.len() - 1 {
                assert(cur.drop_last()[i] == cur[i]);
                let k = choose|k: int|
                    0 <= k < rest.len() && rest[k].summoner_name == cur[i].summoner_name@
                        && rest[k].items == fresh_items(
                        lookup_items(prev, cur[i].summoner_name@),
                        cur[i].items@,
                    );
                assert(diff_entries(prev, cur)[k] == rest[k]);
            } else {
                assert(cur[i] == cur.last());
                let k = diff_entries(prev, cur).len() - 1;
                assert(diff_entries(prev, cur)[k] == diff_entries(prev, cur).last());
            }
        }
    }
}

/// A participant present in both snapshots whose current identities all
/// already stood in its previous list gets no diff entry, even when counts
/// changed, provided participant names are unique in the current snapshot.
pub proof fn lemma_unchanged_identities_no_entry(
    prev: Seq<PlayerState>,
    cur: Seq<PlayerState>,
    i: int,
)
    requires
        0 <= i < cur.len(),
        forall|a: int, b: int|
            0 <= a < cur.len() && 0 <= b < cur.len() && a != b
                ==> #[trigger] cur[a].summoner_name@ != #[trigger] cur[b].summoner_name@,
        forall|t: int|
            0 <= t < cur[i].items@.len() ==> has_identity(
                lookup_items(prev, cur[i].summoner_name@),
                #[trigger] cur[i].items@[t],
            ),
    ensures
        forall|k: int|
            0 <= k < diff_entries(prev, cur).len() ==> #[trigger] diff_entries(
                prev,
                cur,
            )[k].summoner_name != cur[i].summoner_name@,
{
    lemma_no_new_identities(lookup_items(prev, cur[i].summoner_name@), cur[i].items@);
    lemma_diff_entries_sound(prev, cur);
    assert forall|k: int| 0 <= k < diff_entries(prev, cur).len() implies #[trigger] diff_entries(
        prev,
        cur,
    )[k].summoner_name != cur[i].summoner_name@ by {
        let j = choose|j: int|
            0 <= j < cur.len() && diff_entries(prev, cur)[k].summoner_name
                == cur[j].summoner_name@ && diff_entries(prev, cur)[k].items == fresh_items(
                lookup_items(prev, cur[j].summoner_name@),
                cur[j].items@,
            ) && diff_entries(prev, cur)[k].items.len() > 0;
        if diff_entries(prev, cur)[k].summoner_name == cur[i].summoner_name@ {
            assert(j == i);
        }
    }
}

/// Whether any stack of `items` shares its identity with `it`.
fn contains_identity(items: &Vec<Item>, it: &Item) -> (r: bool)
    ensures
        r == has_identity(items@, *it),
{
    let mut j: usize = 0;
    while j < items.len()
        invariant
            j <= items@.len(),
            forall|k: int| 0 <= k < j ==> !same_identity(items@[k], *it),
        decreases items@.len() - j,
    {
        if items[j].item_id == it.item_id && items[j].slot == it.slot {
            return true;
        }
        j = j + 1;
    }
    false
}

/// The stacks of `cur` whose identity is absent from `prev`.
pub fn new_stacks(prev: &Vec<Item>, cur: &Vec<Item>) -> (r: Vec<Item>)
    ensures
        r@ == fresh_items(prev@, cur@),
{
    let mut r: Vec<Item> = Vec::new();
    let mut i: usize = 0;
    while i < cur.len()
        invariant
            i <= cur@.len(),
            r@ == fresh_items(prev@, cur@.take(i as int)),
        decreases cur@.len() - i,
    {
        proof {
            assert(cur@.take(i + 1).drop_last() =~= cur@.take(i as int));
            assert(cur@.take(i + 1).last() == cur@[i as int]);
        }
        if !contains_identity(prev, &cur[i]) {
            r.push(cur[i].clone());
        }
        i = i + 1;
    }
    proof {
        assert(cur@.take(cur@.len() as int) =~= cur@);
    }
    r
}

/// The item list of the participant named `name`, or `None` when absent.
fn find_items<'a>(players: &'a Vec<PlayerState>, name: &String) -> (r: Option<&'a Vec<Item>>)
    ensures
        match r {
            Some(v) => v@ == lookup_items(players@, name@),
            None => lookup_items(players@, name@) == Seq::<Item>::empty(),
        },
{
    let mut j: usize = 0;
    proof {
        assert(players@.skip(0) =~= players@);
    }
    while j < players.len()
        invariant
            j <= players@.len(),
            lookup_items(players@, name@) == lookup_items(players@.skip(j as int), name@),
        decreases players@.len() - j,
    {
        proof {
            assert(players@.skip(j as int).drop_first() =~= players@.skip(j + 1));
            assert(players@.skip(j as int)[0] == players@[j as int]);
        }
        if players[j].summoner_name == *name {
            return Some(&players[j].items);
        }
        j = j + 1;
    }
    None
}

/// The diff of two successive snapshots.
///
/// On the first cycle, when no previous snapshot exists, the result is empty:
/// the current snapshot only establishes the baseline. Otherwise the result
/// holds, for each participant of `current` in order, the stacks whose
/// `(item_id, slot)` identity was absent from that participant's previous
/// item list; a participant absent from the previous snapshot contributes all
/// its stacks, and a participant with no new stacks is omitted.
pub fn diff(previous: &Option<Snapshot>, current: &Snapshot) -> (r: Vec<PurchaseEntry>)
    ensures
        previous is None ==> r@.len() == 0,
        previous matches Some(prev) ==> r@.map_values(|e: PurchaseEntry| e@) == diff_entries(
            prev.players@,
            current.players@,
        ),
{
    let prev = match previous {
        None => {
            return Vec::new();
        },
        Some(p) => p,
    };
    let mut r: Vec<PurchaseEntry> = Vec::new();
    let mut i: usize = 0;
    let empty_items: Vec<Item> = Vec::new();
    while i < current.players.len()
        invariant
            i <= current.players@.len(),
            empty_items@ == Seq::<Item>::empty(),
            r@.map_values(|e: PurchaseEntry| e@) == diff_entries(
                prev.players@,
                current.players@.take(i as int),
            ),
        decreases current.players@.len() - i,
    {
        proof {
            assert(current.players@.take(i + 1).drop_last() =~= current.players@.take(i as int));
            assert(current.players@.take(i + 1).last() == current.players@[i as int]);
        }
        let p = &current.players[i];
        let prev_items = match find_items(&prev.players, &p.summoner_name) {
            Some(v) => v,
            None => &empty_items,
        };
        let fresh = new_stacks(prev_items, &p.items);
        if fresh.len() > 0 {
            let entry = PurchaseEntry { summoner_name: p.summoner_name.clone(), items: fresh };
            let ghost before = r@.map_values(|e: PurchaseEntry| e@);
            r.push(entry);
            proof {
                assert(r@.map_values(|e: PurchaseEntry| e@) =~= before.push(
                    PurchaseEntryV {
                        summoner_name: current.players@[i as int].summoner_name@,
                        items: fresh_items(
                            lookup_items(
                                prev.players@,
                                current.players@[i as int].summoner_name@,
                            ),
                            current.players@[i as int].items@,
                        ),
                    },
                ));
            }
        }
        i = i + 1;
    }
    proof {
        assert(current.players@.take(current.players@.len() as int) =~= current.players@);
    }
    r
}

} // verus!
