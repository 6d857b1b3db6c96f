use ancho::recipe::{visible_recipes, Recipe, RecipeCard};
use ancho::registry::Registry;

fn recipe_with(uid: &str, name: &str) -> Recipe {
    let mut r = Recipe::draft(String::new());
    r.uid = uid.to_string();
    r.name = name.to_string();
    r.hash = format!("hash-{}", name);
    r
}

#[test]
fn upsert_inserts_new_uids_in_order() {
    let mut reg = Registry::new();
    reg.upsert(recipe_with("a", "A"));
    reg.upsert(recipe_with("b", "B"));
    let snap = reg.snapshot();
    assert_eq!(snap.len(), 2);
    assert_eq!(snap[0].uid, "a");
    assert_eq!(snap[1].uid, "b");
}

#[test]
fn upsert_replaces_in_place() {
    let mut reg = Registry::new();
    reg.upsert(recipe_with("a", "A"));
    reg.upsert(recipe_with("b", "B"));
    reg.upsert(recipe_with("a", "A2"));
    let snap = reg.snapshot();
    assert_eq!(reg.len(), 2);
    assert_eq!(snap[0].name, "A2");
    assert_eq!(snap[0].hash, "hash-A2");
    assert_eq!(snap[1].name, "B");
}

#[test]
fn upsert_twice_is_idempotent() {
    let mut reg = Registry::new();
    reg.upsert(recipe_with("x", "X"));
    reg.upsert(recipe_with("a", "A"));
    let once = reg.snapshot();
    reg.upsert(recipe_with("a", "A"));
    assert_eq!(reg.snapshot(), once);
}

#[test]
fn upsert_replaces_the_whole_recipe() {
    let mut reg = Registry::new();
    let mut old = recipe_with("a", "Old");
    old.ingredients = "old ingredients".to_string();
    old.in_trash = true;
    old.categories = vec!["c1".to_string()];
    reg.upsert(old);
    let mut new = recipe_with("a", "New");
    new.directions = "new directions".to_string();
    let expected = new.clone();
    reg.upsert(new);
    let snap = reg.snapshot();
    assert_eq!(snap, vec![expected]);
}

#[test]
fn clear_empties_registry() {
    let mut reg = Registry::new();
    reg.upsert(recipe_with("a", "A"));
    reg.clear();
    assert_eq!(reg.len(), 0);
    assert!(reg.snapshot().is_empty());
}

#[test]
fn find_by_uid() {
    let mut reg = Registry::new();
    reg.upsert(recipe_with("a", "A"));
    reg.upsert(recipe_with("b", "B"));
    assert_eq!(reg.find(&"b".to_string()).map(|r| r.name.clone()), Some("B".to_string()));
    assert!(reg.find(&"c".to_string()).is_none());
}

#[test]
fn snapshot_includes_trashed_recipes() {
    let mut reg = Registry::new();
    let mut t = recipe_with("t", "Trashed");
    t.in_trash = true;
    reg.upsert(t);
    assert_eq!(reg.snapshot().len(), 1);
}

#[test]
fn duplicate_copies_every_field() {
    let mut r = recipe_with("a", "A");
    r.photo_url = Some("p".to_string());
    r.categories = vec!["x".to_string(), "y".to_string()];
    r.on_favorites = true;
    r.rating = -3;
    assert_eq!(r.duplicate(), r);
}

#[test]
fn visible_recipes_skip_trash() {
    let mut a = recipe_with("a", "A");
    a.image_url = Some("http://a.png".to_string());
    let mut b = recipe_with("b", "B");
    b.in_trash = true;
    let c = recipe_with("c", "C");
    let cards = visible_recipes(&vec![a, b, c]);
    assert_eq!(
        cards,
        vec![
            RecipeCard {
                name: "A".to_string(),
                uid: "a".to_string(),
                image_url: "http://a.png".to_string(),
            },
            RecipeCard {
                name: "C".to_string(),
                uid: "c".to_string(),
                image_url: String::new(),
            },
        ]
    );
}

#[test]
fn visible_recipes_of_empty_list() {
    assert!(visible_recipes(&Vec::new()).is_empty());
}

#[test]
fn draft_has_creation_time_only() {
    let d = Recipe::draft("2021-05-01 10:00:00".to_string());
    assert_eq!(d.created, "2021-05-01 10:00:00");
    assert!(d.uid.is_empty() && d.name.is_empty() && d.hash.is_empty());
    assert!(!d.in_trash);
    assert_eq!(d.image_url, None);
}

#[test]
fn clear_hash_keeps_other_fields() {
    let mut r = recipe_with("a", "A");
    r.notes = "n".to_string();
    let mut expected = r.clone();
    expected.hash = String::new();
    r.clear_hash();
    assert_eq!(r, expected);
}
