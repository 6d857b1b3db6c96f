//! Recipes as the remote service describes them, and the catalog entries that
//! name their current version.
use vstd::prelude::*;

verus! {

/// A remote recipe's identity and the hash of its current content.
#[derive(Clone, Debug, PartialEq, Eq)]
pub struct RecipeEntry {
    pub uid: String,
    pub hash: String,
}

/// A materialised recipe document.
#[derive(Clone, Debug, PartialEq, Eq)]
pub struct Recipe {
    pub uid: String,
    pub name: String,
    pub ingredients: String,
    pub directions: String,
    pub description: String,
    pub notes: String,
    pub nutritional_info: String,
    pub servings: String,
    pub difficulty: String,
    pub prep_time: String,
    pub cook_time: String,
    pub total_time: String,
    pub source: String,
    pub source_url: Option<String>,
    pub image_url: Option<String>,
    pub photo: Option<String>,
    pub photo_hash: Option<String>,
    pub photo_large: Option<String>,
    pub scale: Option<String>,
    pub hash: String,
    pub categories: Vec<String>,
    pub rating: i32,
    pub in_trash: bool,
    pub is_pinned: bool,
    pub on_favorites: bool,
    pub on_grocery_list: bool,
    pub created: String,
    pub photo_url: Option<String>,
}

/// What a list of recipes shows of one recipe.
#[derive(Clone, Debug, PartialEq, Eq)]
pub struct RecipeCard {
    pub name: String,
    pub uid: String,
    /// The image reference, empty when the recipe has none.
    pub image_url: String,
}

impl RecipeEntry {
    pub fn new(uid: String, hash: String) -> (r: RecipeEntry)
        ensures
            r.uid == uid,
            r.hash == hash,
    {
        RecipeEntry { uid, hash }
    }
}

/// An image reference as a list shows it: the reference, or empty text.
pub open spec fn shown_image(url: Option<String>) -> Seq<char> {
    match url {
        Some(u) => u@,
        None => Seq::empty(),
    }
}

/// The recipes a list shows, in order: those not in the trash.
pub open spec fn listed(recipes: Seq<Recipe>) -> Seq<Recipe>
    decreases recipes.len(),
{
    if recipes.len() == 0 {
        Seq::empty()
    } else {
        let rest = listed(recipes.drop_last());
        if recipes.last().in_trash {
            rest
        } else {
            rest.push(recipes.last())
        }
    }
}

/// The card shows the recipe's name, uid and image reference.
pub open spec fn shows(card: RecipeCard, recipe: Recipe) -> bool {
    &&& card.name@ == recipe.name@
    &&& card.uid@ == recipe.uid@
    &&& card.image_url@ == shown_image(recipe.image_url)
}

impl Recipe {
    /// An empty recipe created at the given time, to be filled in by the user.
    pub fn draft(created: String) -> (r: Recipe)
        ensures
            r.created == created,
            r.uid@.len() == 0,
            r.name@.len() == 0,
            r.hash@.len() == 0,
            r.categories@.len() == 0,
            r.source_url is None && r.image_url is None && r.photo is None,
            r.photo_hash is None && r.photo_large is None && r.scale is None,
            r.photo_url is None,
            r.rating == 0,
            !r.in_trash && !r.is_pinned && !r.on_favorites && !r.on_grocery_list,
            r.ingredients@.len() == 0 && r.directions@.len() == 0 && r.description@.len() == 0,
            r.notes@.len() == 0 && r.nutritional_info@.len() == 0 && r.servings@.len() == 0,
            r.difficulty@.len() == 0 && r.prep_time@.len() == 0 && r.cook_time@.len() == 0,
            r.total_time@.len() == 0 && r.source@.len() == 0,
    {
        Recipe {
            uid: String::new(),
            name: String::new(),
            ingredients: String::new(),
            directions: String::new(),
            description: String::new(),
            notes: String::new(),
            nutritional_info: String::new(),
            servings: String::new(),
            difficulty: String::new(),
            prep_time: String::new(),
            cook_time: String::new(),
            total_time: String::new(),
            source: String::new(),
            source_url: None,
            image_url: None,
            photo: None,
            photo_hash: None,
            photo_large: None,
            scale: None,
            hash: String::new(),
            categories: Vec::new(),
            rating: 0,
            in_trash: false,
            is_pinned: false,
            on_favorites: false,
            on_grocery_list: false,
            created,
            photo_url: None,
        }
    }

    /// Drops the content hash before an upload: the service computes a new one
    /// for the edited content.
    pub fn clear_hash(&mut self)
        ensures
            final(self).hash@.len() == 0,
            final(self).uid == old(self).uid,
            final(self).name == old(self).name,
            final(self).ingredients == old(self).ingredients,
            final(self).directions == old(self).directions,
            final(self).description == old(self).description,
            final(self).notes == old(self).notes,
            final(self).nutritional_info == old(self).nutritional_info,
            final(self).servings == old(self).servings,
            final(self).difficulty == old(self).difficulty,
            final(self).prep_time == old(self).prep_time,
            final(self).cook_time == old(self).cook_time,
            final(self).total_time == old(self).total_time,
            final(self).source == old(self).source,
            final(self).source_url == old(self).source_url,
            final(self).image_url == old(self).image_url,
            final(self).photo == old(self).photo,
            final(self).photo_hash == old(self).photo_hash,
            final(self).photo_large == old(self).photo_large,
            final(self).scale == old(self).scale,
            final(self).categories == old(self).categories,
            final(self).rating == old(self).rating,
            final(self).in_trash == old(self).in_trash,
            final(self).is_pinned == old(self).is_pinned,
            final(self).on_favorites == old(self).on_favorites,
            final(self).on_grocery_list == old(self).on_grocery_list,
            final(self).created == old(self).created,
            final(self).photo_url == old(self).photo_url,
    {
        self.hash = String::new();
    }
}

fn shown_image_of(url: &Option<String>) -> (r: String)
    ensures
        r@ == shown_image(*url),
{
    match url {
        Some(u) => u.clone(),
        None => String::new(),
    }
}

/// The cards of the recipes outside the trash, in their order.
pub fn visible_recipes(recipes: &Vec<Recipe>) -> (r: Vec<RecipeCard>)
    ensures
        r@.len() == listed(recipes@).len(),
        forall|i: int| 0 <= i < r@.len() ==> shows(#[trigger] r@[i], listed(recipes@)[i]),
{
    let mut cards: Vec<RecipeCard> = Vec::new();
    let mut i: usize = 0;
    while i < recipes.len()
        invariant
            i <= recipes@.len(),
            cards@.len() == listed(recipes@.subrange(0, i as int)).len(),
            forall|k: int|
                0 <= k < cards@.len() ==> shows(
                    #[trigger] cards@[k],
                    listed(recipes@.subrange(0, i as int))[k],
                ),
        decreases recipes@.len() - i,
    {
        let recipe = &recipes[i];
        assert(recipes@.subrange(0, i + 1).drop_last() == recipes@.subrange(0, i as int));
        if !recipe.in_trash {
            let card = RecipeCard {
                name: recipe.name.clone(),
                uid: recipe.uid.clone(),
                image_url: shown_image_of(&recipe.image_url),
            };
            cards.push(card);
        }
        i = i + 1;
    }
    assert(recipes@.subrange(0, recipes@.len() as int) == recipes@);
    cards
}

} // verus!
