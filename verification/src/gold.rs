//! Gold totals: the accumulated value of each participant's current items.

use vstd::prelude::*;

use crate::data::{gold_in_range, gold_value, Item, PlayerState, Team};

verus! {

/// One participant's gold total and team in a `GoldInformation` payload.
#[derive(Clone, Debug)]
pub struct GoldEntry {
    pub summoner_name: String,
    pub gold: i64,
    pub team: Team,
}

/// The view of a gold entry: the name as a character sequence, the total as
/// a mathematical integer.
pub struct GoldEntryV {
    pub summoner_name: Seq<char>,
    pub gold: int,
    pub team: Team,
}

impl View for GoldEntry {
    type V = GoldEntryV;

    open spec fn view(&self) -> GoldEntryV {
        GoldEntryV { summoner_name: self.summoner_name@, gold: self.gold as int, team: self.team }
    }
}

/// The gold entries of a participant list, one per participant in order.
pub open spec fn gold_entries(players: Seq<PlayerState>) -> Seq<GoldEntryV> {
    players.map_values(
        |p: PlayerState|
            GoldEntryV {
                summoner_name: p.summoner_name@,
                gold: gold_value(p.items@),
                team: p.team,
            },
    )
}

/// The gold total of one stack list: the sum of `price * count` over its
/// stacks.
pub fn gold_total(items: &Vec<Item>) -> (r: i64)
    requires
        gold_in_range(items@),
    ensures
        r == gold_value(items@),
{
    let mut acc: i64 = 0;
    let mut i: usize = 0;
    proof {
        assert(items@.take(0) =~= Seq::<Item>::empty());
    }
    while i < items.len()
        invariant
            i <= items@.len(),
            gold_in_range(items@),
            acc == gold_value(items@.take(i as int)),
        decreases items@.len() - i,
    {
        proof {
            assert(items@.take(i + 1).drop_last() =~= items@.take(i as int));
            assert(items@.take(i + 1).last() == items@[i as int]);
            assert(i64::MIN <= gold_value(items@.take(i + 1)) <= i64::MAX);
            assert(i64::MIN <= items@[i as int].price * items@[i as int].count <= i64::MAX);
        }
        let stack_value: i64 = items[i].price * items[i].count;
        acc = acc + stack_value;
        i = i + 1;
    }
    proof {
        assert(items@.take(items@.len() as int) =~= items@);
    }
    acc
}

/// The `GoldInformation` payload of a snapshot: for every participant, its
/// gold total - the sum of `price * count` over its current items - and team.
pub fn build_gold_info(players: &Vec<PlayerState>) -> (r: Vec<GoldEntry>)
    requires
        forall|i: int| 0 <= i < players@.len() ==> gold_in_range(#[trigger] players@[i].items@),
    ensures
        r@.map_values(|e: GoldEntry| e@) == gold_entries(players@),
{
    let mut r: Vec<GoldEntry> = Vec::new();
    let mut i: usize = 0;
    while i < players.len()
        invariant
            i <= players@.len(),
            forall|k: int| 0 <= k < players@.len() ==> gold_in_range(#[trigger] players@[k].items@),
            r@.map_values(|e: GoldEntry| e@) == gold_entries(players@.take(i as int)),
        decreases players@.len() - i,
    {
        let p = &players[i];
        let total = gold_total(&p.items);
        let entry = GoldEntry { summoner_name: p.summoner_name.clone(), gold: total, team: p.team };
        let ghost before = r@.map_values(|e: GoldEntry| e@);
        r.push(entry);
        proof {
            assert(r@.map_values(|e: GoldEntry| e@) =~= before.push(
                GoldEntryV {
                    summoner_name: players@[i as int].summoner_name@,
                    gold: gold_value(players@[i as int].items@),
                    team: players@[i as int].team,
                },
            ));
            assert(gold_entries(players@.take(i + 1)) =~= gold_entries(
                players@.take(i as int),
            ).push(
                GoldEntryV {
                    summoner_name: players@[i as int].summoner_name@,
                    gold: gold_value(players@[i as int].items@),
                    team: players@[i as int].team,
                },
            ));
        }
        i = i + 1;
    }
    proof {
        assert(players@.take(players@.len() as int) =~= players@);
    }
    r
}

} // verus!
