use player_purchases::data::{
    sort_items_by_id, validate_snapshot, Item, Keystone, PlayerState, Runes, Snapshot,
    SummonerSpells, Team, E,
};
use player_purchases::diff::diff;

fn item(item_id: i64, slot: i64, count: i64) -> Item {
    Item {
        can_use: true,
        consumable: false,
        count,
        display_name: format!("item {}", item_id),
        item_id,
        price: 100,
        raw_description: String::new(),
        raw_display_name: String::new(),
        slot,
    }
}

fn ability(name: &str) -> E {
    E {
        ability_level: Some(1),
        display_name: name.to_string(),
        id: Some(name.to_string()),
        raw_description: String::new(),
        raw_display_name: String::new(),
    }
}

fn keystone(id: i64) -> Keystone {
    Keystone {
        display_name: format!("keystone {}", id),
        id,
        raw_description: String::new(),
        raw_display_name: String::new(),
    }
}

fn player(name: &str, items: Vec<Item>) -> PlayerState {
    PlayerState {
        champion_name: format!("champion of {}", name),
        is_bot: false,
        is_dead: false,
        items,
        level: 3,
        position: "MIDDLE".to_string(),
        raw_champion_name: String::new(),
        raw_skin_name: None,
        runes: Runes {
            keystone: keystone(8112),
            primary_rune_tree: keystone(8100),
            secondary_rune_tree: keystone(8300),
        },
        skin_id: 0,
        skin_name: None,
        summoner_name: name.to_string(),
        summoner_spells: SummonerSpells {
            summoner_spell_one: ability("flash"),
            summoner_spell_two: ability("ignite"),
        },
        team: Team::Order,
    }
}

fn snapshot(players: Vec<PlayerState>) -> Snapshot {
    validate_snapshot(players).expect("test snapshot must be well formed")
}

#[test]
fn first_cycle_emits_nothing() {
    let current = snapshot(vec![player("A", vec![item(10, 1, 1), item(20, 2, 3)])]);
    let out = diff(&None, &current);
    assert_eq!(out.len(), 0);
}

#[test]
fn new_item_in_new_slot_is_reported() {
    let previous = snapshot(vec![player("A", vec![item(10, 1, 1)])]);
    let current = snapshot(vec![player("A", vec![item(10, 1, 1), item(20, 2, 1)])]);
    let out = diff(&Some(previous), &current);
    assert_eq!(out.len(), 1);
    assert_eq!(out[0].summoner_name, "A");
    assert_eq!(out[0].items.len(), 1);
    assert_eq!(out[0].items[0].item_id, 20);
    assert_eq!(out[0].items[0].slot, 2);
    assert_eq!(out[0].items[0].count, 1);
}

#[test]
fn count_change_alone_is_not_reported() {
    let previous = snapshot(vec![player("A", vec![item(10, 1, 1)])]);
    let current = snapshot(vec![player("A", vec![item(10, 1, 2)])]);
    let out = diff(&Some(previous), &current);
    assert_eq!(out.len(), 0);
}

#[test]
fn new_participant_contributes_all_items() {
    let previous = snapshot(vec![player("A", vec![item(10, 1, 1)])]);
    let current = snapshot(vec![
        player("A", vec![item(10, 1, 1)]),
        player("B", vec![item(30, 1, 1), item(40, 2, 1)]),
    ]);
    let out = diff(&Some(previous), &current);
    assert_eq!(out.len(), 1);
    assert_eq!(out[0].summoner_name, "B");
    assert_eq!(out[0].items.len(), 2);
    assert_eq!(out[0].items[0].item_id, 30);
    assert_eq!(out[0].items[1].item_id, 40);
}

#[test]
fn dropped_participant_is_silent() {
    let previous = snapshot(vec![
        player("A", vec![item(10, 1, 1)]),
        player("B", vec![item(30, 1, 1)]),
    ]);
    let current = snapshot(vec![player("A", vec![item(10, 1, 1)])]);
    let out = diff(&Some(previous), &current);
    assert_eq!(out.len(), 0);
}

#[test]
fn same_item_in_other_slot_is_new() {
    let previous = snapshot(vec![player("A", vec![item(10, 1, 1)])]);
    let current = snapshot(vec![player("A", vec![item(10, 1, 1), item(10, 5, 1)])]);
    let out = diff(&Some(previous), &current);
    assert_eq!(out.len(), 1);
    assert_eq!(out[0].items.len(), 1);
    assert_eq!(out[0].items[0].item_id, 10);
    assert_eq!(out[0].items[0].slot, 5);
}

#[test]
fn unchanged_participants_are_omitted() {
    let previous = snapshot(vec![
        player("A", vec![item(10, 1, 1)]),
        player("B", vec![item(30, 1, 1)]),
    ]);
    let current = snapshot(vec![
        player("A", vec![item(10, 1, 1)]),
        player("B", vec![item(30, 1, 1), item(50, 2, 1)]),
    ]);
    let out = diff(&Some(previous), &current);
    assert_eq!(out.len(), 1);
    assert_eq!(out[0].summoner_name, "B");
    assert_eq!(out[0].items.len(), 1);
    assert_eq!(out[0].items[0].item_id, 50);
}

#[test]
fn item_lists_normalize_by_item_id() {
    let items = vec![item(30, 1, 1), item(10, 2, 2), item(20, 3, 1), item(10, 4, 1)];
    let sorted = sort_items_by_id(&items);
    assert_eq!(sorted.len(), 4);
    let ids: Vec<i64> = sorted.iter().map(|i| i.item_id).collect();
    assert_eq!(ids, vec![10, 10, 20, 30]);
    let slots_of_10: Vec<i64> =
        sorted.iter().filter(|i| i.item_id == 10).map(|i| i.slot).collect();
    let mut expected = slots_of_10.clone();
    expected.sort_unstable();
    assert_eq!(expected, vec![2, 4]);
    assert_eq!(sorted.iter().filter(|i| i.item_id == 20).count(), 1);
    assert_eq!(sorted.iter().filter(|i| i.item_id == 30).count(), 1);
}

#[test]
fn stacks_compare_on_identity_and_count() {
    assert_eq!(item(10, 1, 1), item(10, 3, 1));
    assert_ne!(item(10, 1, 1), item(10, 1, 2));
    assert_ne!(item(10, 1, 1), item(20, 1, 1));
    assert!(item(10, 1, 1) < item(20, 1, 1));
    assert!(item(20, 1, 1) > item(10, 1, 1));
    assert!(!(item(10, 5, 2) < item(10, 1, 1)));
}

#[test]
fn duplicate_names_fail_validation() {
    let players = vec![player("A", vec![]), player("A", vec![item(10, 1, 1)])];
    assert!(validate_snapshot(players).is_none());
}

#[test]
fn overflowing_gold_fails_validation() {
    let mut expensive = item(10, 1, i64::MAX);
    expensive.price = i64::MAX;
    let players = vec![player("A", vec![expensive])];
    assert!(validate_snapshot(players).is_none());
}
