use ancho::account::Account;
use ancho::cache::{check_record, record_path, CacheVerdict, StoredRecord};
use ancho::paprika::{AuthError, Paprika};
use ancho::recipe::{Recipe, RecipeEntry};
use ancho::recipe_fetcher::{
    RecipeFetcher, SyncAction, SyncEvent, CYCLE_DELAY_MS, RETRY_DELAY_MS,
};
use ancho::registry::Registry;
use std::collections::HashMap;

/// A remote service and a disk, in memory, answering the scheduler's requests.
struct World {
    disk: HashMap<String, Recipe>,
    remote: HashMap<String, Recipe>,
    catalog: Vec<RecipeEntry>,
    token: String,
    fetches: usize,
    writes: usize,
    evictions: usize,
}

fn remote_recipe(uid: &str, hash: &str) -> Recipe {
    let mut r = Recipe::draft(String::new());
    r.uid = uid.to_string();
    r.hash = hash.to_string();
    r.name = format!("Recipe {} at {}", uid, hash);
    r
}

fn entry(uid: &str, hash: &str) -> RecipeEntry {
    RecipeEntry::new(uid.to_string(), hash.to_string())
}

fn world_with(catalog: Vec<RecipeEntry>) -> World {
    let mut remote = HashMap::new();
    for e in &catalog {
        remote.insert(e.uid.clone(), remote_recipe(&e.uid, &e.hash));
    }
    World {
        disk: HashMap::new(),
        remote,
        catalog,
        token: "tok".to_string(),
        fetches: 0,
        writes: 0,
        evictions: 0,
    }
}

fn answer(world: &mut World, action: &SyncAction) -> SyncEvent {
    match action {
        SyncAction::Login { .. } => SyncEvent::LoggedIn(world.token.clone()),
        SyncAction::ListCatalog { .. } => SyncEvent::CatalogListed(world.catalog.clone()),
        SyncAction::ReadCache { uid, hash } => {
            let path = record_path(uid);
            let stored = match world.disk.get(&path) {
                Some(r) => StoredRecord::Present(r.clone()),
                None => StoredRecord::Absent,
            };
            match check_record(stored, hash) {
                CacheVerdict::Hit(r) => SyncEvent::CacheHit(r),
                CacheVerdict::Evict => {
                    world.disk.remove(&path);
                    world.evictions += 1;
                    SyncEvent::CacheMiss
                }
                CacheVerdict::Miss => SyncEvent::CacheMiss,
            }
        }
        SyncAction::Fetch { uid, .. } => {
            world.fetches += 1;
            match world.remote.get(uid) {
                Some(r) => {
                    world.disk.insert(record_path(&r.uid), r.clone());
                    world.writes += 1;
                    SyncEvent::Fetched(r.clone())
                }
                None => SyncEvent::FetchFailed,
            }
        }
        SyncAction::Proceed | SyncAction::Rest { .. } | SyncAction::AuthFailed { .. } => {
            SyncEvent::Tick
        }
    }
}

/// Runs from a tick until the end of the cycle (the rest after the last
/// entry) and returns that final action.
fn run_cycle(
    world: &mut World,
    fetcher: &mut RecipeFetcher,
    paprika: &mut Paprika,
    registry: &mut Registry,
) -> SyncAction {
    let mut event = SyncEvent::Tick;
    for _ in 0..100 {
        let action = fetcher.step(paprika, registry, event);
        if action == (SyncAction::Rest { millis: CYCLE_DELAY_MS }) {
            return action;
        }
        event = answer(world, &action);
    }
    panic!("the cycle did not end");
}

fn fallback_paprika() -> Paprika {
    let mut p = Paprika::new();
    p.set_fallback_credentials(Some("me@example.com".to_string()), Some("pw".to_string()));
    p
}

#[test]
fn full_cycle_with_empty_cache() {
    let mut world = world_with(vec![entry("a", "h1"), entry("b", "h2")]);
    let mut fetcher = RecipeFetcher::new();
    let mut paprika = fallback_paprika();
    let mut registry = Registry::new();
    let end = run_cycle(&mut world, &mut fetcher, &mut paprika, &mut registry);
    assert_eq!(end, SyncAction::Rest { millis: CYCLE_DELAY_MS });
    assert_eq!(world.fetches, 2);
    assert_eq!(world.writes, 2);
    assert_eq!(world.disk.len(), 2);
    assert_eq!(
        registry.snapshot(),
        vec![remote_recipe("a", "h1"), remote_recipe("b", "h2")]
    );
    assert_eq!(paprika.last_fetched, 0);
    assert!(paprika.recipe_entries.is_empty());
}

#[test]
fn stale_cache_entry_is_refetched() {
    let mut world = world_with(vec![entry("a", "h2")]);
    world.disk.insert(record_path(&"a".to_string()), remote_recipe("a", "h1"));
    let mut fetcher = RecipeFetcher::new();
    let mut paprika = fallback_paprika();
    let mut registry = Registry::new();
    run_cycle(&mut world, &mut fetcher, &mut paprika, &mut registry);
    assert_eq!(world.fetches, 1);
    assert_eq!(world.evictions, 1);
    assert_eq!(world.disk[&record_path(&"a".to_string())].hash, "h2");
    assert_eq!(registry.snapshot(), vec![remote_recipe("a", "h2")]);
}

#[test]
fn valid_cache_entries_are_not_fetched() {
    let mut world = world_with(vec![entry("a", "h1"), entry("b", "h2")]);
    world.disk.insert(record_path(&"a".to_string()), remote_recipe("a", "h1"));
    world.disk.insert(record_path(&"b".to_string()), remote_recipe("b", "h2"));
    let mut fetcher = RecipeFetcher::new();
    let mut paprika = fallback_paprika();
    let mut registry = Registry::new();
    run_cycle(&mut world, &mut fetcher, &mut paprika, &mut registry);
    assert_eq!(world.fetches, 0);
    assert_eq!(registry.len(), 2);
}

#[test]
fn cursor_reaches_catalog_length_then_resets() {
    let mut world = world_with(vec![entry("a", "1"), entry("b", "2"), entry("c", "3")]);
    let mut fetcher = RecipeFetcher::new();
    let mut paprika = fallback_paprika();
    let mut registry = Registry::new();
    let mut event = SyncEvent::Tick;
    let mut taken = 0;
    while taken < 3 || paprika.last_fetched != 3 || !matches!(event, SyncEvent::Tick) {
        let action = fetcher.step(&mut paprika, &mut registry, event);
        if matches!(action, SyncAction::ReadCache { .. }) {
            taken += 1;
            assert_eq!(paprika.last_fetched, taken);
        }
        event = answer(&mut world, &action);
        assert!(paprika.last_fetched <= paprika.recipe_entries.len());
    }
    assert_eq!(paprika.recipe_entries.len(), 3);
    let action = fetcher.step(&mut paprika, &mut registry, SyncEvent::Tick);
    assert_eq!(action, SyncAction::Rest { millis: CYCLE_DELAY_MS });
    assert_eq!(paprika.last_fetched, 0);
    assert!(paprika.recipe_entries.is_empty());
    let action = fetcher.step(&mut paprika, &mut registry, SyncEvent::Tick);
    assert_eq!(action, SyncAction::ListCatalog { token: "tok".to_string() });
}

#[test]
fn credential_change_clears_before_login() {
    let mut world = world_with(vec![entry("a", "h1")]);
    let mut fetcher = RecipeFetcher::new();
    let mut paprika = fallback_paprika();
    let mut registry = Registry::new();
    run_cycle(&mut world, &mut fetcher, &mut paprika, &mut registry);
    let list = fetcher.step(&mut paprika, &mut registry, SyncEvent::Tick);
    assert_eq!(list, SyncAction::ListCatalog { token: "tok".to_string() });
    fetcher.step(&mut paprika, &mut registry, SyncEvent::CatalogListed(vec![entry("a", "h1")]));
    assert_eq!(registry.len(), 1);
    assert_eq!(paprika.recipe_entries.len(), 1);

    paprika.account = Account::new("new@example.com".to_string(), "pw2".to_string());
    let action = fetcher.step(&mut paprika, &mut registry, SyncEvent::Tick);
    assert_eq!(
        action,
        SyncAction::Login {
            identity: "new@example.com".to_string(),
            secret: "pw2".to_string(),
        }
    );
    assert_eq!(registry.len(), 0);
    assert!(paprika.recipe_entries.is_empty());
    assert_eq!(paprika.last_fetched, 0);
    assert!(paprika.token.is_empty());

    let action = fetcher.step(&mut paprika, &mut registry, SyncEvent::LoggedIn("tok2".to_string()));
    assert_eq!(action, SyncAction::Proceed);
    assert_eq!(paprika.token, "tok2");
    let action = fetcher.step(&mut paprika, &mut registry, SyncEvent::Tick);
    assert_eq!(action, SyncAction::ListCatalog { token: "tok2".to_string() });
}

#[test]
fn set_account_drops_session() {
    let mut world = world_with(vec![entry("a", "h1")]);
    let mut fetcher = RecipeFetcher::new();
    let mut paprika = fallback_paprika();
    let mut registry = Registry::new();
    run_cycle(&mut world, &mut fetcher, &mut paprika, &mut registry);
    paprika.set_account(Account::new("u".to_string(), "p".to_string()));
    assert!(paprika.token.is_empty());
    assert!(paprika.recipe_entries.is_empty());
    assert_eq!(paprika.last_fetched, 0);
    assert_eq!(paprika.account.username, "u");
}

#[test]
fn stale_login_answer_is_dropped() {
    let mut fetcher = RecipeFetcher::new();
    let mut paprika = fallback_paprika();
    let mut registry = Registry::new();
    let action = fetcher.step(&mut paprika, &mut registry, SyncEvent::Tick);
    assert_eq!(
        action,
        SyncAction::Login {
            identity: "me@example.com".to_string(),
            secret: "pw".to_string(),
        }
    );
    paprika.set_account(Account::new("u".to_string(), "p".to_string()));
    let action = fetcher.step(&mut paprika, &mut registry, SyncEvent::LoggedIn("old".to_string()));
    assert_eq!(action, SyncAction::Proceed);
    assert!(paprika.token.is_empty());
    let action = fetcher.step(&mut paprika, &mut registry, SyncEvent::Tick);
    assert_eq!(
        action,
        SyncAction::Login { identity: "u".to_string(), secret: "p".to_string() }
    );
}

#[test]
fn missing_credentials_back_off() {
    let mut fetcher = RecipeFetcher::new();
    let mut paprika = Paprika::new();
    let mut registry = Registry::new();
    let action = fetcher.step(&mut paprika, &mut registry, SyncEvent::Tick);
    assert_eq!(
        action,
        SyncAction::AuthFailed { error: AuthError::MissingCredentials, millis: RETRY_DELAY_MS }
    );
}

#[test]
fn half_fallback_credentials_are_missing() {
    let mut fetcher = RecipeFetcher::new();
    let mut paprika = Paprika::new();
    paprika.set_fallback_credentials(Some("me".to_string()), None);
    let mut registry = Registry::new();
    let action = fetcher.step(&mut paprika, &mut registry, SyncEvent::Tick);
    assert_eq!(
        action,
        SyncAction::AuthFailed { error: AuthError::MissingCredentials, millis: RETRY_DELAY_MS }
    );
}

#[test]
fn rejected_login_backs_off() {
    let mut fetcher = RecipeFetcher::new();
    let mut paprika = fallback_paprika();
    let mut registry = Registry::new();
    fetcher.step(&mut paprika, &mut registry, SyncEvent::Tick);
    let action = fetcher.step(&mut paprika, &mut registry, SyncEvent::LoginFailed);
    assert_eq!(
        action,
        SyncAction::AuthFailed { error: AuthError::RemoteRejected, millis: RETRY_DELAY_MS }
    );
    assert!(paprika.token.is_empty());
}

#[test]
fn empty_token_counts_as_rejection() {
    let mut fetcher = RecipeFetcher::new();
    let mut paprika = fallback_paprika();
    let mut registry = Registry::new();
    fetcher.step(&mut paprika, &mut registry, SyncEvent::Tick);
    let action = fetcher.step(&mut paprika, &mut registry, SyncEvent::LoggedIn(String::new()));
    assert_eq!(
        action,
        SyncAction::AuthFailed { error: AuthError::RemoteRejected, millis: RETRY_DELAY_MS }
    );
}

#[test]
fn account_login_preferred_over_fallback() {
    let mut fetcher = RecipeFetcher::new();
    let mut paprika = fallback_paprika();
    paprika.set_account(Account::new("acct".to_string(), "secret".to_string()));
    let mut registry = Registry::new();
    let action = fetcher.step(&mut paprika, &mut registry, SyncEvent::Tick);
    assert_eq!(
        action,
        SyncAction::Login { identity: "acct".to_string(), secret: "secret".to_string() }
    );
    fetcher.step(&mut paprika, &mut registry, SyncEvent::LoggedIn("t".to_string()));
    let action = fetcher.step(&mut paprika, &mut registry, SyncEvent::Tick);
    assert_eq!(action, SyncAction::ListCatalog { token: "t".to_string() });
}

#[test]
fn catalog_failure_backs_off() {
    let mut fetcher = RecipeFetcher::new();
    let mut paprika = fallback_paprika();
    let mut registry = Registry::new();
    fetcher.step(&mut paprika, &mut registry, SyncEvent::Tick);
    fetcher.step(&mut paprika, &mut registry, SyncEvent::LoggedIn("t".to_string()));
    fetcher.step(&mut paprika, &mut registry, SyncEvent::Tick);
    let action = fetcher.step(&mut paprika, &mut registry, SyncEvent::CatalogFailed);
    assert_eq!(action, SyncAction::Rest { millis: RETRY_DELAY_MS });
    assert!(paprika.recipe_entries.is_empty());
}

#[test]
fn empty_catalog_rests() {
    let mut fetcher = RecipeFetcher::new();
    let mut paprika = fallback_paprika();
    let mut registry = Registry::new();
    fetcher.step(&mut paprika, &mut registry, SyncEvent::Tick);
    fetcher.step(&mut paprika, &mut registry, SyncEvent::LoggedIn("t".to_string()));
    fetcher.step(&mut paprika, &mut registry, SyncEvent::Tick);
    let action = fetcher.step(&mut paprika, &mut registry, SyncEvent::CatalogListed(Vec::new()));
    assert_eq!(action, SyncAction::Rest { millis: CYCLE_DELAY_MS });
}

#[test]
fn failed_fetch_is_skipped() {
    let mut world = world_with(vec![entry("a", "h1"), entry("b", "h2")]);
    world.remote.remove("a");
    let mut fetcher = RecipeFetcher::new();
    let mut paprika = fallback_paprika();
    let mut registry = Registry::new();
    run_cycle(&mut world, &mut fetcher, &mut paprika, &mut registry);
    assert_eq!(world.fetches, 2);
    assert_eq!(registry.snapshot(), vec![remote_recipe("b", "h2")]);
}

#[test]
fn cache_hit_with_wrong_hash_is_fetched() {
    let mut fetcher = RecipeFetcher::new();
    let mut paprika = fallback_paprika();
    let mut registry = Registry::new();
    fetcher.step(&mut paprika, &mut registry, SyncEvent::Tick);
    fetcher.step(&mut paprika, &mut registry, SyncEvent::LoggedIn("t".to_string()));
    fetcher.step(&mut paprika, &mut registry, SyncEvent::Tick);
    fetcher.step(&mut paprika, &mut registry, SyncEvent::CatalogListed(vec![entry("a", "h2")]));
    let action = fetcher.step(&mut paprika, &mut registry, SyncEvent::Tick);
    assert_eq!(action, SyncAction::ReadCache { uid: "a".to_string(), hash: "h2".to_string() });
    let action = fetcher.step(&mut paprika, &mut registry, SyncEvent::CacheHit(remote_recipe("a", "h1")));
    assert_eq!(action, SyncAction::Fetch { token: "t".to_string(), uid: "a".to_string() });
    assert_eq!(registry.len(), 0);
}

#[test]
fn answer_after_logout_is_dropped() {
    let mut fetcher = RecipeFetcher::new();
    let mut paprika = fallback_paprika();
    let mut registry = Registry::new();
    fetcher.step(&mut paprika, &mut registry, SyncEvent::Tick);
    fetcher.step(&mut paprika, &mut registry, SyncEvent::LoggedIn("t".to_string()));
    fetcher.step(&mut paprika, &mut registry, SyncEvent::Tick);
    fetcher.step(&mut paprika, &mut registry, SyncEvent::CatalogListed(vec![entry("a", "h1")]));
    fetcher.step(&mut paprika, &mut registry, SyncEvent::Tick);
    paprika.logout();
    registry.clear();
    let action = fetcher.step(&mut paprika, &mut registry, SyncEvent::CacheHit(remote_recipe("a", "h1")));
    assert_eq!(action, SyncAction::Proceed);
    assert_eq!(registry.len(), 0);
}

#[test]
fn unexpected_answer_counts_as_tick() {
    let mut fetcher = RecipeFetcher::new();
    let mut paprika = fallback_paprika();
    let mut registry = Registry::new();
    let action = fetcher.step(&mut paprika, &mut registry, SyncEvent::CacheMiss);
    assert_eq!(
        action,
        SyncAction::Login { identity: "me@example.com".to_string(), secret: "pw".to_string() }
    );
}
