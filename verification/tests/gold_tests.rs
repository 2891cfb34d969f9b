use player_purchases::data::{Item, Keystone, PlayerState, Runes, SummonerSpells, Team, E};
use player_purchases::gold::{build_gold_info, gold_total};

fn priced_item(item_id: i64, price: i64, count: i64) -> Item {
    Item {
        can_use: true,
        consumable: false,
        count,
        display_name: format!("item {}", item_id),
        item_id,
        price,
        raw_description: String::new(),
        raw_display_name: String::new(),
        slot: 0,
    }
}

fn ability(name: &str) -> E {
    E {
        ability_level: None,
        display_name: name.to_string(),
        id: None,
        raw_description: String::new(),
        raw_display_name: String::new(),
    }
}

fn keystone(id: i64) -> Keystone {
    Keystone {
        display_name: format!("keystone {}", id),
        id,
        raw_description: String::new(),
        raw_display_name: String::new(),
    }
}

fn player(name: &str, team: Team, items: Vec<Item>) -> PlayerState {
    PlayerState {
        champion_name: format!("champion of {}", name),
        is_bot: false,
        is_dead: false,
        items,
        level: 10,
        position: "TOP".to_string(),
        raw_champion_name: String::new(),
        raw_skin_name: None,
        runes: Runes {
            keystone: keystone(8112),
            primary_rune_tree: keystone(8100),
            secondary_rune_tree: keystone(8300),
        },
        skin_id: 2,
        skin_name: None,
        summoner_name: name.to_string(),
        summoner_spells: SummonerSpells {
            summoner_spell_one: ability("flash"),
            summoner_spell_two: ability("teleport"),
        },
        team,
    }
}

#[test]
fn empty_inventory_is_worth_nothing() {
    assert_eq!(gold_total(&vec![]), 0);
}

#[test]
fn gold_total_is_sum_of_price_times_count() {
    let items = vec![
        priced_item(10, 350, 2),
        priced_item(20, 1100, 1),
        priced_item(30, 75, 4),
    ];
    assert_eq!(gold_total(&items), 350 * 2 + 1100 + 75 * 4);
}

#[test]
fn gold_total_counts_count_changes() {
    let before = vec![priced_item(10, 500, 1)];
    let after = vec![priced_item(10, 500, 3)];
    assert_eq!(gold_total(&before), 500);
    assert_eq!(gold_total(&after), 1500);
}

#[test]
fn gold_info_covers_every_participant() {
    let players = vec![
        player("A", Team::Order, vec![priced_item(10, 300, 1)]),
        player("B", Team::Chaos, vec![priced_item(20, 50, 2), priced_item(30, 1000, 1)]),
        player("C", Team::Order, vec![]),
    ];
    let info = build_gold_info(&players);
    assert_eq!(info.len(), 3);
    assert_eq!(info[0].summoner_name, "A");
    assert_eq!(info[0].gold, 300);
    assert_eq!(info[0].team, Team::Order);
    assert_eq!(info[1].summoner_name, "B");
    assert_eq!(info[1].gold, 1100);
    assert_eq!(info[1].team, Team::Chaos);
    assert_eq!(info[2].summoner_name, "C");
    assert_eq!(info[2].gold, 0);
}
