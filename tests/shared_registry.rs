use ancho::paprika::Paprika;
use ancho::recipe::{Recipe, RecipeEntry};
use ancho::recipe_fetcher::{RecipeFetcher, SyncAction, SyncEvent};
use ancho::shared_registry::SharedRegistry;

fn shared_recipe(uid: &str, version: u32) -> Recipe {
    let mut r = Recipe::draft(String::new());
    r.uid = uid.to_string();
    r.name = format!("v{}", version);
    r.notes = format!("v{}", version);
    r.hash = format!("v{}", version);
    r
}

fn require_send_sync<T: Send + Sync>() {}

#[test]
fn shared_registry_can_be_shared_across_threads() {
    require_send_sync::<SharedRegistry>();
}

#[test]
fn shared_registry_upsert_find_clear() {
    let shared = SharedRegistry::new();
    shared.upsert(shared_recipe("a", 1));
    shared.upsert(shared_recipe("a", 2));
    shared.upsert(shared_recipe("b", 1));
    assert_eq!(shared.snapshot(), vec![shared_recipe("a", 2), shared_recipe("b", 1)]);
    assert_eq!(shared.find(&"a".to_string()), Some(shared_recipe("a", 2)));
    assert_eq!(shared.find(&"z".to_string()), None);
    shared.clear();
    assert!(shared.snapshot().is_empty());
}

#[test]
fn shared_step_publishes_into_registry() {
    let shared = SharedRegistry::new();
    let mut fetcher = RecipeFetcher::new();
    let mut paprika = Paprika::new();
    paprika.set_fallback_credentials(Some("e".to_string()), Some("p".to_string()));
    shared.step(&mut fetcher, &mut paprika, SyncEvent::Tick);
    shared.step(&mut fetcher, &mut paprika, SyncEvent::LoggedIn("t".to_string()));
    shared.step(&mut fetcher, &mut paprika, SyncEvent::Tick);
    let entries = vec![RecipeEntry::new("a".to_string(), "v1".to_string())];
    shared.step(&mut fetcher, &mut paprika, SyncEvent::CatalogListed(entries));
    let read = shared.step(&mut fetcher, &mut paprika, SyncEvent::Tick);
    assert_eq!(read, SyncAction::ReadCache { uid: "a".to_string(), hash: "v1".to_string() });
    let action = shared.step(&mut fetcher, &mut paprika, SyncEvent::CacheHit(shared_recipe("a", 1)));
    assert_eq!(action, SyncAction::Proceed);
    assert_eq!(shared.snapshot(), vec![shared_recipe("a", 1)]);
}
