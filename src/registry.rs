//! The registry of materialised recipes, keyed by uid.
use crate::recipe::Recipe;
use vstd::prelude::*;

verus! {

/// No two recipes share a uid.
pub open spec fn unique_uids(recipes: Seq<Recipe>) -> bool {
    forall|i: int, j: int|
        0 <= i < recipes.len() && 0 <= j < recipes.len() && i != j ==> recipes[i].uid@
            != recipes[j].uid@
}

/// Some recipe has the uid.
pub open spec fn holds_uid(recipes: Seq<Recipe>, uid: Seq<char>) -> bool {
    exists|i: int| 0 <= i < recipes.len() && #[trigger] recipes[i].uid@ == uid
}

/// The recipes after an upsert: the recipe with the same uid is replaced in
/// place by the new one, or the new one is appended when its uid is new.
pub open spec fn upserted(recipes: Seq<Recipe>, recipe: Recipe) -> Seq<Recipe> {
    if holds_uid(recipes, recipe.uid@) {
        let i = choose|i: int| 0 <= i < recipes.len() && #[trigger] recipes[i].uid@ == recipe.uid@;
        recipes.update(i, recipe)
    } else {
        recipes.push(recipe)
    }
}

/// An upsert keeps the uids unique and leaves the new recipe in the registry.
pub proof fn lemma_upsert_unique(recipes: Seq<Recipe>, recipe: Recipe)
    requires
        unique_uids(recipes),
    ensures
        unique_uids(upserted(recipes, recipe)),
        upserted(recipes, recipe).contains(recipe),
{
    let after = upserted(recipes, recipe);
    if holds_uid(recipes, recipe.uid@) {
        let i = choose|i: int| 0 <= i < recipes.len() && #[trigger] recipes[i].uid@ == recipe.uid@;
        assert(after[i] == recipe);
    } else {
        assert(after[recipes.len() as int] == recipe);
    }
}

/// Upserting the same recipe twice leaves the registry as the first upsert
/// left it.
pub proof fn lemma_upsert_idempotent(recipes: Seq<Recipe>, recipe: Recipe)
    requires
        unique_uids(recipes),
    ensures
        upserted(upserted(recipes, recipe), recipe) == upserted(recipes, recipe),
{
    let once = upserted(recipes, recipe);
    lemma_upsert_unique(recipes, recipe);
    let k = choose|k: int| 0 <= k < once.len() && once[k] == recipe;
    assert(once[k].uid@ == recipe.uid@);
    assert(holds_uid(once, recipe.uid@));
    let j = choose|j: int| 0 <= j < once.len() && #[trigger] once[j].uid@ == recipe.uid@;
    assert(j == k);
    assert(once.update(j, recipe) =~= once);
}

/// An upsert never mixes two versions of a recipe: afterwards every recipe is
/// either the new one, whole, or one that was there before, whole; and the
/// recipe filed under the new recipe's uid is the new one.
pub proof fn lemma_upsert_whole(recipes: Seq<Recipe>, recipe: Recipe)
    requires
        unique_uids(recipes),
    ensures
        forall|k: int|
            0 <= k < upserted(recipes, recipe).len() ==> #[trigger] upserted(recipes, recipe)[k]
                == recipe || recipes.contains(upserted(recipes, recipe)[k]),
        forall|k: int|
            0 <= k < upserted(recipes, recipe).len() && #[trigger] upserted(
                recipes,
                recipe,
            )[k].uid@ == recipe.uid@ ==> upserted(recipes, recipe)[k] == recipe,
{
    let after = upserted(recipes, recipe);
    lemma_upsert_unique(recipes, recipe);
    assert forall|k: int| 0 <= k < after.len() implies #[trigger] after[k] == recipe
        || recipes.contains(after[k]) by {
        if after[k] != recipe {
            assert(recipes[k] == after[k]);
        }
    }
    assert forall|k: int| 0 <= k < after.len() && #[trigger] after[k].uid@ == recipe.uid@ implies after[k]
        == recipe by {
        let m = choose|m: int| 0 <= m < after.len() && after[m] == recipe;
        assert(after[m].uid@ == recipe.uid@);
    }
}

/// Two recipes hold the same content, field by field.
pub open spec fn same_content(a: Recipe, b: Recipe) -> bool {
    &&& a.uid == b.uid
    &&& a.name == b.name
    &&& a.ingredients == b.ingredients
    &&& a.directions == b.directions
    &&& a.description == b.description
    &&& a.notes == b.notes
    &&& a.nutritional_info == b.nutritional_info
    &&& a.servings == b.servings
    &&& a.difficulty == b.difficulty
    &&& a.prep_time == b.prep_time
    &&& a.cook_time == b.cook_time
    &&& a.total_time == b.total_time
    &&& a.source == b.source
    &&& a.source_url == b.source_url
    &&& a.image_url == b.image_url
    &&& a.photo == b.photo
    &&& a.photo_hash == b.photo_hash
    &&& a.photo_large == b.photo_large
    &&& a.scale == b.scale
    &&& a.hash == b.hash
    &&& a.categories@ == b.categories@
    &&& a.rating == b.rating
    &&& a.in_trash == b.in_trash
    &&& a.is_pinned == b.is_pinned
    &&& a.on_favorites == b.on_favorites
    &&& a.on_grocery_list == b.on_grocery_list
    &&& a.created == b.created
    &&& a.photo_url == b.photo_url
}

impl Recipe {
    /// A field-by-field copy.
    pub fn duplicate(&self) -> (r: Recipe)
        ensures
            same_content(r, *self),
    {
        Recipe {
            uid: self.uid.clone(),
            name: self.name.clone(),
            ingredients: self.ingredients.clone(),
            directions: self.directions.clone(),
            description: self.description.clone(),
            notes: self.notes.clone(),
            nutritional_info: self.nutritional_info.clone(),
            servings: self.servings.clone(),
            difficulty: self.difficulty.clone(),
            prep_time: self.prep_time.clone(),
            cook_time: self.cook_time.clone(),
            total_time: self.total_time.clone(),
            source: self.source.clone(),
            source_url: self.source_url.clone(),
            image_url: self.image_url.clone(),
            photo: self.photo.clone(),
            photo_hash: self.photo_hash.clone(),
            photo_large: self.photo_large.clone(),
            scale: self.scale.clone(),
            hash: self.hash.clone(),
            categories: self.categories.clone(),
            rating: self.rating,
            in_trash: self.in_trash,
            is_pinned: self.is_pinned,
            on_favorites: self.on_favorites,
            on_grocery_list: self.on_grocery_list,
            created: self.created.clone(),
            photo_url: self.photo_url.clone(),
        }
    }
}

/// The materialised recipes, at most one per uid. Recipes are only ever
/// replaced whole.
pub struct Registry {
    recipes: Vec<Recipe>,
}

impl View for Registry {
    type V = Seq<Recipe>;

    closed spec fn view(&self) -> Seq<Recipe> {
        self.recipes@
    }
}

impl Registry {
    #[verifier::type_invariant]
    spec fn well_formed(&self) -> bool {
        unique_uids(self.recipes@)
    }

    pub fn new() -> (r: Registry)
        ensures
            r@ == Seq::<Recipe>::empty(),
            unique_uids(r@),
    {
        Registry { recipes: Vec::new() }
    }

    pub fn len(&self) -> (r: usize)
        ensures
            r == self@.len(),
    {
        self.recipes.len()
    }

    fn position(&self, uid: &String) -> (r: Option<usize>)
        ensures
            match r {
                Some(i) => i < self@.len() && self@[i as int].uid@ == uid@,
                None => !holds_uid(self@, uid@),
            },
    {
        let mut i: usize = 0;
        while i < self.recipes.len()
            invariant
                i <= self.recipes@.len(),
                forall|k: int| 0 <= k < i ==> self.recipes@[k].uid@ != uid@,
            decreases self.recipes@.len() - i,
        {
            if self.recipes[i].uid == *uid {
                return Some(i);
            }
            i = i + 1;
        }
        None
    }

    /// The recipe with the uid, if any.
    pub fn find(&self, uid: &String) -> (r: Option<&Recipe>)
        ensures
            match r {
                Some(recipe) => recipe.uid@ == uid@ && self@.contains(*recipe),
                None => !holds_uid(self@, uid@),
            },
    {
        match self.position(uid) {
            Some(i) => Some(&self.recipes[i]),
            None => None,
        }
    }

    /// Inserts the recipe, replacing whole the one with the same uid.
    pub fn upsert(&mut self, recipe: Recipe)
        ensures
            final(self)@ == upserted(old(self)@, recipe),
            unique_uids(final(self)@),
    {
        proof {
            use_type_invariant(&*self);
        }
        let found = self.position(&recipe.uid);
        let mut recipes: Vec<Recipe> = Vec::new();
        std::mem::swap(&mut self.recipes, &mut recipes);
        match found {
            Some(i) => {
                proof {
                    let j = choose|j: int|
                        0 <= j < recipes@.len() && #[trigger] recipes@[j].uid@ == recipe.uid@;
                    assert(j == i);
                }
                recipes.set(i, recipe);
            },
            None => {
                recipes.push(recipe);
            },
        }
        std::mem::swap(&mut self.recipes, &mut recipes);
        proof {
            use_type_invariant(&*self);
        }
    }

    pub fn clear(&mut self)
        ensures
            final(self)@ == Seq::<Recipe>::empty(),
            unique_uids(final(self)@),
    {
        self.recipes = Vec::new();
    }

    /// A copy of every recipe, trashed ones included, in registry order.
    pub fn snapshot(&self) -> (r: Vec<Recipe>)
        ensures
            r@.len() == self@.len(),
            forall|i: int| 0 <= i < r@.len() ==> same_content(#[trigger] r@[i], self@[i]),
            unique_uids(self@),
    {
        proof {
            use_type_invariant(self);
        }
        let mut copy: Vec<Recipe> = Vec::new();
        let mut i: usize = 0;
        while i < self.recipes.len()
            invariant
                i <= self.recipes@.len(),
                copy@.len() == i,
                forall|k: int| 0 <= k < i ==> same_content(#[trigger] copy@[k], self.recipes@[k]),
            decreases self.recipes@.len() - i,
        {
            copy.push(self.recipes[i].duplicate());
            i = i + 1;
        }
        copy
    }
}

} // verus!
