//! The snapshot data model: participants, their item stacks, teams, runes and
//! summoner spells, plus the well-formedness of a full snapshot.

use vstd::multiset::Multiset;
use vstd::prelude::*;

verus! {

/// Which side of the map a participant plays on.
#[derive(Clone, Copy, Debug, PartialEq, Eq, Structural)]
pub enum Team {
    Chaos,
    Order,
}

/// One stack of items held by a participant.
///
/// The identity of a stack is the `(item_id, slot)` pair; `count` may change
/// for the same identity without making it a new purchase.
#[derive(Debug)]
pub struct Item {
    pub can_use: bool,
    pub consumable: bool,
    pub count: i64,
    pub display_name: String,
    pub item_id: i64,
    pub price: i64,
    pub raw_description: String,
    pub raw_display_name: String,
    pub slot: i64,
}

/// Two stacks are the same purchase when their `(item_id, slot)` identities
/// match, regardless of count.
pub open spec fn same_identity(a: Item, b: Item) -> bool {
    a.item_id == b.item_id && a.slot == b.slot
}

impl Clone for Item {
    /// A clone keeps every field.
    fn clone(&self) -> (r: Item)
        ensures
            r == *self,
    {
        Item {
            can_use: self.can_use,
            consumable: self.consumable,
            count: self.count,
            display_name: self.display_name.clone(),
            item_id: self.item_id,
            price: self.price,
            raw_description: self.raw_description.clone(),
            raw_display_name: self.raw_display_name.clone(),
            slot: self.slot,
        }
    }
}

impl PartialEq for Item {
    /// Stacks compare equal on `(item_id, count)` alone: a count change on
    /// the same item makes the stacks unequal while display text does not.
    fn eq(&self, other: &Item) -> (r: bool) {
        self.item_id == other.item_id && self.count == other.count
    }
}

impl vstd::std_specs::cmp::PartialEqSpecImpl for Item {
    open spec fn obeys_eq_spec() -> bool {
        true
    }

    open spec fn eq_spec(&self, other: &Item) -> bool {
        self.item_id == other.item_id && self.count == other.count
    }
}

impl PartialOrd for Item {
    /// Stacks order by `item_id` alone, the order item lists are normalized
    /// to.
    fn partial_cmp(&self, other: &Item) -> (r: Option<core::cmp::Ordering>) {
        if self.item_id < other.item_id {
            Some(core::cmp::Ordering::Less)
        } else if self.item_id == other.item_id {
            Some(core::cmp::Ordering::Equal)
        } else {
            Some(core::cmp::Ordering::Greater)
        }
    }
}

impl vstd::std_specs::cmp::PartialOrdSpecImpl for Item {
    open spec fn obeys_partial_cmp_spec() -> bool {
        true
    }

    open spec fn partial_cmp_spec(&self, other: &Item) -> Option<core::cmp::Ordering> {
        if self.item_id < other.item_id {
            Some(core::cmp::Ordering::Less)
        } else if self.item_id == other.item_id {
            Some(core::cmp::Ordering::Equal)
        } else {
            Some(core::cmp::Ordering::Greater)
        }
    }
}

/// The index of a stack with the smallest `item_id` in a nonempty list.
fn min_item_index(items: &Vec<Item>) -> (m: usize)
    requires
        items@.len() > 0,
    ensures
        m < items@.len(),
        forall|k: int| 0 <= k < items@.len() ==> items@[m as int].item_id <= #[trigger] items@[k].item_id,
{
    let mut m: usize = 0;
    let mut k: usize = 1;
    while k < items.len()
        invariant
            m < k <= items@.len(),
            forall|t: int| 0 <= t < k ==> items@[m as int].item_id <= #[trigger] items@[t].item_id,
        decreases items@.len() - k,
    {
        if items[k].item_id < items[m].item_id {
            m = k;
        }
        k = k + 1;
    }
    m
}

/// The stack list reordered by ascending `item_id`: the normal form item
/// lists are kept in, so that two inventories with the same stacks read the
/// same. The result holds exactly the stacks of the input.
pub fn sort_items_by_id(items: &Vec<Item>) -> (r: Vec<Item>)
    ensures
        r@.len() == items@.len(),
        r@.to_multiset() == items@.to_multiset(),
        forall|a: int, b: int|
            0 <= a < b < r@.len() ==> #[trigger] r@[a].item_id <= #[trigger] r@[b].item_id,
{
    broadcast use vstd::seq_lib::group_to_multiset_ensures;

    let mut rest: Vec<Item> = Vec::new();
    let mut i: usize = 0;
    while i < items.len()
        invariant
            i <= items@.len(),
            rest@ == items@.take(i as int),
        decreases items@.len() - i,
    {
        rest.push(items[i].clone());
        proof {
            assert(rest@ =~= items@.take(i + 1));
        }
        i = i + 1;
    }
    proof {
        assert(items@.take(items@.len() as int) =~= items@);
    }

    let mut r: Vec<Item> = Vec::new();
    while rest.len() > 0
        invariant
            r@.to_multiset().add(rest@.to_multiset()) == items@.to_multiset(),
            r@.len() + rest@.len() == items@.len(),
            forall|a: int, b: int|
                0 <= a < b < r@.len() ==> #[trigger] r@[a].item_id <= #[trigger] r@[b].item_id,
            forall|a: int, b: int|
                0 <= a < r@.len() && 0 <= b < rest@.len() ==> #[trigger] r@[a].item_id
                    <= #[trigger] rest@[b].item_id,
        decreases rest@.len(),
    {
        let m = min_item_index(&rest);
        let ghost old_r = r@;
        let ghost old_rest = rest@;
        let x = rest.remove(m);
        r.push(x);
        proof {
            old_r.to_multiset_ensures();
            old_rest.to_multiset_ensures();
            assert(old_rest.contains(old_rest[m as int]));
            assert(rest@ == old_rest.remove(m as int));
            assert(old_rest.remove(m as int).to_multiset() =~= old_rest.to_multiset().remove(
                old_rest[m as int],
            ));
            assert(r@ == old_r.push(x));
            assert(old_r.push(x).to_multiset() =~= old_r.to_multiset().insert(x));
            assert(old_rest.to_multiset().count(old_rest[m as int]) > 0);
            assert(r@.to_multiset().add(rest@.to_multiset()) =~= old_r.to_multiset().add(
                old_rest.to_multiset(),
            ));
        }
    }
    proof {
        assert(rest@.to_multiset() =~= Multiset::<Item>::empty());
        assert(r@.to_multiset() =~= r@.to_multiset().add(rest@.to_multiset()));
    }
    r
}

/// One ability (or summoner spell) slot of a participant.
#[derive(Clone, Debug)]
pub struct E {
    pub ability_level: Option<i64>,
    pub display_name: String,
    pub id: Option<String>,
    pub raw_description: String,
    pub raw_display_name: String,
}

/// The ability loadout of the active participant.
#[derive(Clone, Debug)]
pub struct Abilities {
    pub e: E,
    pub passive: E,
    pub q: E,
    pub r: E,
    pub w: E,
}

/// One rune choice.
#[derive(Clone, Debug)]
pub struct Keystone {
    pub display_name: String,
    pub id: i64,
    pub raw_description: String,
    pub raw_display_name: String,
}

/// One stat shard choice.
#[derive(Clone, Debug)]
pub struct StatRune {
    pub id: i64,
    pub raw_description: String,
}

/// The rune summary visible for every participant.
#[derive(Clone, Debug)]
pub struct Runes {
    pub keystone: Keystone,
    pub primary_rune_tree: Keystone,
    pub secondary_rune_tree: Keystone,
}

/// The full rune page of the active participant.
#[derive(Clone, Debug)]
pub struct FullRunes {
    pub general_runes: Vec<Keystone>,
    pub keystone: Keystone,
    pub primary_rune_tree: Keystone,
    pub secondary_rune_tree: Keystone,
    pub stat_runes: Vec<StatRune>,
}

/// The two summoner spells of a participant.
#[derive(Clone, Debug)]
pub struct SummonerSpells {
    pub summoner_spell_one: E,
    pub summoner_spell_two: E,
}

/// One participant as the snapshot source reports it, reduced to the fields
/// the pipeline reads.
#[derive(Clone, Debug)]
pub struct PlayerState {
    pub champion_name: String,
    pub is_bot: bool,
    pub is_dead: bool,
    pub items: Vec<Item>,
    pub level: i64,
    pub position: String,
    pub raw_champion_name: String,
    pub raw_skin_name: Option<String>,
    pub runes: Runes,
    pub skin_id: i64,
    pub skin_name: Option<String>,
    pub summoner_name: String,
    pub summoner_spells: SummonerSpells,
    pub team: Team,
}

/// The lightweight roster payload published whenever purchase activity occurs.
#[derive(Clone, Debug)]
pub struct PlayerInfo {
    pub champion_name: String,
    pub summoner_name: String,
    pub skin_id: i64,
}

/// The view of a roster entry: its strings as character sequences.
pub struct PlayerInfoV {
    pub champion_name: Seq<char>,
    pub summoner_name: Seq<char>,
    pub skin_id: i64,
}

impl View for PlayerInfo {
    type V = PlayerInfoV;

    open spec fn view(&self) -> PlayerInfoV {
        PlayerInfoV {
            champion_name: self.champion_name@,
            summoner_name: self.summoner_name@,
            skin_id: self.skin_id,
        }
    }
}

/// The full state of all participants at one poll cycle.
#[derive(Clone, Debug)]
pub struct Snapshot {
    pub players: Vec<PlayerState>,
}

/// A participant's stack list admits a machine gold total: every product and
/// every running sum stays within `i64`.
pub open spec fn gold_in_range(s: Seq<Item>) -> bool {
    &&& forall|i: int|
        0 <= i < s.len() ==> i64::MIN <= #[trigger] (s[i].price * s[i].count) <= i64::MAX
    &&& forall|i: int| 0 <= i <= s.len() ==> i64::MIN <= #[trigger] gold_value(s.take(i)) <= i64::MAX
}

/// The gold total of a stack list: the sum of `price * count` over its stacks.
pub open spec fn gold_value(s: Seq<Item>) -> int
    decreases s.len(),
{
    if s.len() == 0 {
        0
    } else {
        gold_value(s.drop_last()) + s.last().price * s.last().count
    }
}

/// A well-formed snapshot names each participant once and admits a machine
/// gold total for each.
pub open spec fn wf_snapshot(s: Snapshot) -> bool {
    &&& forall|i: int, j: int|
        0 <= i < s.players@.len() && 0 <= j < s.players@.len() && i != j
            ==> #[trigger] s.players@[i].summoner_name@ != #[trigger] s.players@[j].summoner_name@
    &&& forall|i: int| 0 <= i < s.players@.len() ==> gold_in_range(#[trigger] s.players@[i].items@)
}

/// Whether a stack list admits a machine gold total.
fn gold_within_limits(items: &Vec<Item>) -> (r: bool)
    ensures
        r == gold_in_range(items@),
{
    let mut acc: i64 = 0;
    let mut i: usize = 0;
    proof {
        assert(items@.take(0) =~= Seq::<Item>::empty());
    }
    while i < items.len()
        invariant
            i <= items@.len(),
            acc == gold_value(items@.take(i as int)),
            forall|k: int|
                0 <= k < i ==> i64::MIN <= #[trigger] (items@[k].price * items@[k].count)
                    <= i64::MAX,
            forall|k: int|
                0 <= k <= i ==> i64::MIN <= #[trigger] gold_value(items@.take(k)) <= i64::MAX,
        decreases items@.len() - i,
    {
        proof {
            assert(items@.take(i + 1).drop_last() =~= items@.take(i as int));
            assert(items@.take(i + 1).last() == items@[i as int]);
        }
        let product = match items[i].price.checked_mul(items[i].count) {
            Some(p) => p,
            None => {
                proof {
                    assert(!(i64::MIN <= items@[i as int].price * items@[i as int].count
                        <= i64::MAX));
                }
                return false;
            },
        };
        acc = match acc.checked_add(product) {
            Some(a) => a,
            None => {
                proof {
                    assert(gold_value(items@.take(i + 1)) == acc + product);
                    assert(!(i64::MIN <= gold_value(items@.take(i + 1)) <= i64::MAX));
                }
                return false;
            },
        };
        i = i + 1;
    }
    proof {
        assert(items@.take(items@.len() as int) =~= items@);
    }
    true
}

/// Whether each participant of the list carries its own name.
fn names_unique(players: &Vec<PlayerState>) -> (r: bool)
    ensures
        r == (forall|i: int, j: int|
            0 <= i < players@.len() && 0 <= j < players@.len() && i != j
                ==> #[trigger] players@[i].summoner_name@
                != #[trigger] players@[j].summoner_name@),
{
    let mut i: usize = 0;
    while i < players.len()
        invariant
            i <= players@.len(),
            forall|a: int, b: int|
                0 <= a < b < players@.len() && a < i ==> #[trigger] players@[a].summoner_name@
                    != #[trigger] players@[b].summoner_name@,
        decreases players@.len() - i,
    {
        let mut j: usize = i + 1;
        while j < players.len()
            invariant
                i < j || i + 1 == j,
                i < players@.len(),
                i + 1 <= j <= players@.len(),
                forall|b: int|
                    i < b < j ==> players@[i as int].summoner_name@
                        != #[trigger] players@[b].summoner_name@,
            decreases players@.len() - j,
        {
            if players[i].summoner_name == players[j].summoner_name {
                return false;
            }
            j = j + 1;
        }
        i = i + 1;
    }
    proof {
        assert forall|i: int, j: int|
            0 <= i < players@.len() && 0 <= j < players@.len() && i
                != j implies #[trigger] players@[i].summoner_name@
            != #[trigger] players@[j].summoner_name@ by {
            if i < j {
                assert(players@[i].summoner_name@ != players@[j].summoner_name@);
            } else {
                assert(players@[j].summoner_name@ != players@[i].summoner_name@);
            }
        }
    }
    true
}

/// Checks a freshly fetched participant list and wraps it as a snapshot.
///
/// Returns `None` exactly when the list is no well-formed snapshot: a
/// participant name occurs twice, or some participant's stacks overflow a
/// machine gold total. The poll loop treats such a response as malformed.
pub fn validate_snapshot(players: Vec<PlayerState>) -> (r: Option<Snapshot>)
    ensures
        match r {
            Some(s) => s == (Snapshot { players }) && wf_snapshot(s),
            None => !wf_snapshot(Snapshot { players }),
        },
{
    if !names_unique(&players) {
        return None;
    }
    let mut i: usize = 0;
    while i < players.len()
        invariant
            i <= players@.len(),
            forall|k: int| 0 <= k < i ==> gold_in_range(#[trigger] players@[k].items@),
        decreases players@.len() - i,
    {
        if !gold_within_limits(&players[i].items) {
            return None;
        }
        i = i + 1;
    }
    Some(Snapshot { players })
}

} // verus!
