use player_purchases::data::Item;
use player_purchases::diff::PurchaseEntry;
use player_purchases::error::PlayerPurchasesError;
use player_purchases::metadata::{
    current_version, generate_readable, Catalog, CatalogEntry, MetadataCache,
};

fn catalog() -> Catalog {
    Catalog {
        version: "14.1.1".to_string(),
        entries: vec![
            CatalogEntry {
                item_id: 1001,
                name: "Boots".to_string(),
                image_full: "1001.png".to_string(),
            },
            CatalogEntry {
                item_id: 1055,
                name: "Doran's Blade".to_string(),
                image_full: "1055.png".to_string(),
            },
        ],
    }
}

fn item(item_id: i64) -> Item {
    Item {
        can_use: true,
        consumable: false,
        count: 1,
        display_name: String::new(),
        item_id,
        price: 300,
        raw_description: String::new(),
        raw_display_name: String::new(),
        slot: 0,
    }
}

#[test]
fn cold_cache_reports_metadata_unavailable() {
    let cache = MetadataCache::new();
    assert!(!cache.is_loaded());
    match cache.resolve(1001) {
        Err(PlayerPurchasesError::MetadataUnavailable) => {},
        _ => panic!("a cold cache must fail with the catalog unavailable"),
    }
}

#[test]
fn known_item_resolves_to_name_and_url() {
    let mut cache = MetadataCache::new();
    cache.load(catalog());
    assert!(cache.is_loaded());
    let resolved = cache.resolve(1001).expect("a catalogued item must resolve");
    assert_eq!(resolved.name, "Boots");
    assert_eq!(
        resolved.image_url,
        "https://ddragon.leagueoflegends.com/cdn/14.1.1/img/item/1001.png"
    );
}

#[test]
fn unknown_item_is_recoverable() {
    let mut cache = MetadataCache::new();
    cache.load(catalog());
    match cache.resolve(9999) {
        Err(PlayerPurchasesError::UnknownItem) => {},
        _ => panic!("an uncatalogued identifier must fail as unknown"),
    }
}

#[test]
fn readable_batch_keeps_participants_and_skips_unknown_items() {
    let mut cache = MetadataCache::new();
    cache.load(catalog());
    let purchases = vec![
        PurchaseEntry { summoner_name: "A".to_string(), items: vec![item(1001), item(9999)] },
        PurchaseEntry { summoner_name: "B".to_string(), items: vec![item(1055)] },
    ];
    let readable = generate_readable(&purchases, &cache).expect("a loaded cache must succeed");
    assert_eq!(readable.len(), 2);
    assert_eq!(readable[0].summoner_name, "A");
    assert_eq!(readable[0].items.len(), 1);
    assert_eq!(readable[0].items[0].name, "Boots");
    assert_eq!(readable[1].summoner_name, "B");
    assert_eq!(readable[1].items.len(), 1);
    assert_eq!(readable[1].items[0].name, "Doran's Blade");
    assert_eq!(
        readable[1].items[0].image_url,
        "https://ddragon.leagueoflegends.com/cdn/14.1.1/img/item/1055.png"
    );
}

#[test]
fn readable_batch_fails_without_catalog() {
    let cache = MetadataCache::new();
    let purchases = vec![PurchaseEntry { summoner_name: "A".to_string(), items: vec![item(1001)] }];
    match generate_readable(&purchases, &cache) {
        Err(PlayerPurchasesError::MetadataUnavailable) => {},
        _ => panic!("enrichment without a catalog must fail as unavailable"),
    }
}

#[test]
fn current_version_is_the_first_entry() {
    let versions = vec!["14.1.1".to_string(), "14.1.0".to_string()];
    assert_eq!(current_version(&versions), Some(&versions[0]));
}

#[test]
fn empty_version_list_has_no_current() {
    let versions: Vec<String> = Vec::new();
    assert!(current_version(&versions).is_none());
}
