//! Metadata enrichment: the memoized item catalog and the translation of raw
//! item identifiers into display name and image URL.
//!
//! The runtime layer fetches the version list and the catalog document once;
//! this module owns the cache, the version choice, the lookup and the URL
//! composition, and never fetches anything itself.

use vstd::prelude::*;
use vstd::string::StringExecFns;

use crate::diff::{PurchaseEntry, PurchaseEntryV};
use crate::error::PlayerPurchasesError;

verus! {

/// One catalog record: the display data of one item identifier.
#[derive(Debug)]
pub struct CatalogEntry {
    pub item_id: i64,
    pub name: String,
    pub image_full: String,
}

/// The full item catalog of one game version.
#[derive(Debug)]
pub struct Catalog {
    pub version: String,
    pub entries: Vec<CatalogEntry>,
}

/// The record of the first catalog entry carrying `id`, or `None` when the
/// catalog lacks that identifier.
pub open spec fn catalog_lookup(entries: Seq<CatalogEntry>, id: i64) -> Option<CatalogEntry>
    decreases entries.len(),
{
    if entries.len() == 0 {
        None
    } else if entries[0].item_id == id {
        Some(entries[0])
    } else {
        catalog_lookup(entries.drop_first(), id)
    }
}

/// A display-ready item: name and a fetchable image URL.
#[derive(Clone, Debug)]
pub struct ExternalItem {
    pub name: String,
    pub image_url: String,
}

/// The view of a display-ready item.
pub struct ExternalItemV {
    pub name: Seq<char>,
    pub image_url: Seq<char>,
}

impl View for ExternalItem {
    type V = ExternalItemV;

    open spec fn view(&self) -> ExternalItemV {
        ExternalItemV { name: self.name@, image_url: self.image_url@ }
    }
}

/// One participant's display-ready new items in an `ItemInformation` payload.
#[derive(Clone, Debug)]
pub struct EnrichedEntry {
    pub summoner_name: String,
    pub items: Vec<ExternalItem>,
}

/// The view of an enriched entry.
pub struct EnrichedEntryV {
    pub summoner_name: Seq<char>,
    pub items: Seq<ExternalItemV>,
}

impl View for EnrichedEntry {
    type V = EnrichedEntryV;

    open spec fn view(&self) -> EnrichedEntryV {
        EnrichedEntryV {
            summoner_name: self.summoner_name@,
            items: self.items@.map_values(|it: ExternalItem| it@),
        }
    }
}

/// The image URL of a catalog record: the content delivery prefix, the
/// catalog version, and the image filename.
pub open spec fn image_url_spec(version: Seq<char>, full: Seq<char>) -> Seq<char> {
    "https://ddragon.leagueoflegends.com/cdn/"@ + version + "/img/item/"@ + full
}

/// Composes the fetchable image URL for one catalog record.
pub fn image_url(version: &String, full: &String) -> (r: String)
    ensures
        r@ == image_url_spec(version@, full@),
{
    let mut r = String::from_str("https://ddragon.leagueoflegends.com/cdn/");
    r.append(version.as_str());
    r.append("/img/item/");
    r.append(full.as_str());
    r
}

/// The current game version: the first entry of the version list, or `None`
/// when the list is empty.
pub fn current_version(versions: &Vec<String>) -> (r: Option<&String>)
    ensures
        match r {
            Some(v) => versions@.len() > 0 && v@ == versions@[0]@,
            None => versions@.len() == 0,
        },
{
    if versions.len() > 0 {
        Some(&versions[0])
    } else {
        None
    }
}

/// The lazily loaded, memoized item catalog.
///
/// The catalog is fetched at most once per process lifetime: loading demands
/// a cold cache, so a loaded catalog can never be replaced, and the poll loop
/// checks `is_loaded` before fetching, which keeps one fetch in flight at
/// most under its single owner.
#[derive(Debug)]
pub struct MetadataCache {
    pub catalog: Option<Catalog>,
}

impl MetadataCache {
    /// A cold cache: nothing fetched yet.
    pub fn new() -> (r: MetadataCache)
        ensures
            r.catalog is None,
    {
        MetadataCache { catalog: None }
    }

    /// Whether the catalog has been loaded.
    pub fn is_loaded(&self) -> (r: bool)
        ensures
            r == (self.catalog is Some),
    {
        match &self.catalog {
            Some(_) => true,
            None => false,
        }
    }

    /// Memoizes the fetched catalog, once per process lifetime.
    pub fn load(&mut self, catalog: Catalog)
        requires
            old(self).catalog is None,
        ensures
            final(self).catalog == Some(catalog),
    {
        self.catalog = Some(catalog);
    }

    /// Resolves one item identifier to its display data.
    ///
    /// Fails with `MetadataUnavailable` when the catalog is not loaded, and
    /// with `UnknownItem` when the identifier is absent from it; both are
    /// recoverable for the caller.
    pub fn resolve(&self, item_id: i64) -> (r: Result<ExternalItem, PlayerPurchasesError>)
        ensures
            match self.catalog {
                None => r == Err::<ExternalItem, _>(PlayerPurchasesError::MetadataUnavailable),
                Some(c) => match catalog_lookup(c.entries@, item_id) {
                    None => r == Err::<ExternalItem, _>(PlayerPurchasesError::UnknownItem),
                    Some(e) => r matches Ok(x) && x.name@ == e.name@ && x.image_url@
                        == image_url_spec(c.version@, e.image_full@),
                },
            },
    {
        let c = match &self.catalog {
            None => {
                return Err(PlayerPurchasesError::MetadataUnavailable);
            },
            Some(c) => c,
        };
        let mut j: usize = 0;
        proof {
            assert(c.entries@.skip(0) =~= c.entries@);
        }
        while j < c.entries.len()
            invariant
                self.catalog == Some(*c),
                j <= c.entries@.len(),
                catalog_lookup(c.entries@, item_id) == catalog_lookup(
                    c.entries@.skip(j as int),
                    item_id,
                ),
            decreases c.entries@.len() - j,
        {
            proof {
                assert(c.entries@.skip(j as int).drop_first() =~= c.entries@.skip(j + 1));
                assert(c.entries@.skip(j as int)[0] == c.entries@[j as int]);
            }
            if c.entries[j].item_id == item_id {
                return Ok(
                    ExternalItem {
                        name: c.entries[j].name.clone(),
                        image_url: image_url(&c.version, &c.entries[j].image_full),
                    },
                );
            }
            j = j + 1;
        }
        Err(PlayerPurchasesError::UnknownItem)
    }
}

/// The display-ready items of one stack list: each stack whose identifier the
/// catalog knows, in order; unknown identifiers are skipped.
pub open spec fn enrich_items(c: Catalog, items: Seq<crate::data::Item>) -> Seq<ExternalItemV>
    decreases items.len(),
{
    if items.len() == 0 {
        Seq::empty()
    } else {
        let rest = enrich_items(c, items.drop_last());
        match catalog_lookup(c.entries@, items.last().item_id) {
            None => rest,
            Some(e) => rest.push(
                ExternalItemV {
                    name: e.name@,
                    image_url: image_url_spec(c.version@, e.image_full@),
                },
            ),
        }
    }
}

/// The display-ready entries of a purchase batch, one per participant in
/// order, each carrying its enriched items.
pub open spec fn enrich_entries(c: Catalog, entries: Seq<PurchaseEntryV>) -> Seq<EnrichedEntryV> {
    entries.map_values(
        |e: PurchaseEntryV|
            EnrichedEntryV { summoner_name: e.summoner_name, items: enrich_items(c, e.items) },
    )
}

/// Translates a purchase batch into display-ready entries.
///
/// Fails with `MetadataUnavailable` exactly when the catalog is not loaded;
/// otherwise succeeds, keeping every participant and skipping only the items
/// whose identifier the catalog lacks.
pub fn generate_readable(purchases: &Vec<PurchaseEntry>, cache: &MetadataCache) -> (r: Result<
    Vec<EnrichedEntry>,
    PlayerPurchasesError,
>)
    ensures
        match cache.catalog {
            None => r matches Err(e) && e == PlayerPurchasesError::MetadataUnavailable,
            Some(c) => r matches Ok(v) && v@.map_values(|e: EnrichedEntry| e@) == enrich_entries(
                c,
                purchases@.map_values(|p: PurchaseEntry| p@),
            ),
        },
{
    let c = match &cache.catalog {
        None => {
            return Err(PlayerPurchasesError::MetadataUnavailable);
        },
        Some(c) => c,
    };
    let mut r: Vec<EnrichedEntry> = Vec::new();
    let mut i: usize = 0;
    while i < purchases.len()
        invariant
            i <= purchases@.len(),
            cache.catalog == Some(*c),
            r@.map_values(|e: EnrichedEntry| e@) == enrich_entries(
                *c,
                purchases@.take(i as int).map_values(|p: PurchaseEntry| p@),
            ),
        decreases purchases@.len() - i,
    {
        let entry = &purchases[i];
        let mut out: Vec<ExternalItem> = Vec::new();
        let mut j: usize = 0;
        while j < entry.items.len()
            invariant
                j <= entry.items@.len(),
                cache.catalog == Some(*c),
                out@.map_values(|it: ExternalItem| it@) == enrich_items(
                    *c,
                    entry.items@.take(j as int),
                ),
            decreases entry.items@.len() - j,
        {
            proof {
                assert(entry.items@.take(j + 1).drop_last() =~= entry.items@.take(j as int));
                assert(entry.items@.take(j + 1).last() == entry.items@[j as int]);
            }
            let ghost before_items = out@.map_values(|it: ExternalItem| it@);
            match cache.resolve(entry.items[j].item_id) {
                Ok(x) => {
                    let ghost xv = x@;
                    out.push(x);
                    proof {
                        assert(out@.map_values(|it: ExternalItem| it@) =~= before_items.push(xv));
                    }
                },
                Err(_) => {},
            }
            j = j + 1;
        }
        proof {
            assert(entry.items@.take(entry.items@.len() as int) =~= entry.items@);
        }
        let ghost before = r@.map_values(|e: EnrichedEntry| e@);
        let enriched = EnrichedEntry { summoner_name: entry.summoner_name.clone(), items: out };
        let ghost ev = enriched@;
        r.push(enriched);
        proof {
            assert(r@.map_values(|e: EnrichedEntry| e@) =~= before.push(ev));
            assert(enrich_entries(*c, purchases@.take(i + 1).map_values(|p: PurchaseEntry| p@))
                =~= enrich_entries(
                *c,
                purchases@.take(i as int).map_values(|p: PurchaseEntry| p@),
            ).push(ev));
        }
        i = i + 1;
    }
    proof {
        assert(purchases@.take(purchases@.len() as int) =~= purchases@);
    }
    Ok(r)
}

} // verus!
