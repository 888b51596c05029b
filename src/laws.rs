//! What holds of the binding as a whole.
use vstd::prelude::*;

use crate::json::{entry_of, member, JsonView};
use crate::recipe::{
    array_field, ingredient_keys, ingredient_model, ingredients_model, instruction_keys,
    instruction_model, instructions_model, recipe_keys, recipe_model, tag_keys, tag_model,
    tags_model, writes_ingredient, writes_ingredients, writes_instruction, writes_instructions,
    writes_recipe, writes_tag, writes_tags, IngredientView, InstructionView, RecipeView, TagView,
};

verus! {

/// A lookup finds the first member with the name.
pub proof fn lemma_entry_at(es: Seq<(Seq<char>, JsonView)>, k: int, key: Seq<char>)
    requires
        0 <= k < es.len(),
        es[k].0 == key,
        forall|m: int| 0 <= m < k ==> es[m].0 != key,
    ensures
        entry_of(es, key) == Some(es[k].1),
    decreases k,
{
    if k > 0 {
        let rest = es.drop_first();
        assert forall|m: int| 0 <= m < k - 1 implies rest[m].0 != key by {
            assert(rest[m] == es[m + 1]);
        }
        lemma_entry_at(rest, k - 1, key);
    }
}

/// An object whose member names are pairwise distinct and given in `keys`
/// order has, under each of them, the value written there.
pub proof fn lemma_members_at(es: Seq<(Seq<char>, JsonView)>, keys: Seq<Seq<char>>)
    requires
        es.len() == keys.len(),
        forall|i: int| 0 <= i < es.len() ==> #[trigger] es[i].0 == keys[i],
        forall|i: int, m: int| 0 <= m < i < keys.len() ==> keys[m] != keys[i],
    ensures
        forall|i: int| 0 <= i < es.len() ==> entry_of(es, #[trigger] keys[i]) == Some(es[i].1),
{
    assert forall|i: int| 0 <= i < es.len() implies entry_of(es, #[trigger] keys[i]) == Some(
        es[i].1,
    ) by {
        lemma_entry_at(es, i, keys[i]);
    }
}

/// The member names of `tag_keys()` are pairwise distinct.
pub proof fn lemma_tag_keys_distinct()
    ensures
        forall|i: int, m: int| 0 <= m < i < tag_keys().len() ==> tag_keys()[m] != tag_keys()[i],
{
    reveal_strlit("id");
    reveal_strlit("name");
    reveal_strlit("slug");
    assert("id"@.len() == 2 && "id"@[0] == 'i');
    assert("name"@.len() == 4 && "name"@[0] == 'n');
    assert("slug"@.len() == 4 && "slug"@[0] == 's');
    let ks = tag_keys();
    assert forall|i: int, m: int| 0 <= m < i < ks.len() implies ks[m] != ks[i] by {
        assert(ks[m].len() != ks[i].len() || ks[m][0] != ks[i][0]);
    }
}

/// The member names of `instruction_keys()` are pairwise distinct.
pub proof fn lemma_instruction_keys_distinct()
    ensures
        forall|i: int, m: int| 0 <= m < i < instruction_keys().len() ==> instruction_keys()[m] != instruction_keys()[i],
{
    reveal_strlit("id");
    reveal_strlit("title");
    reveal_strlit("text");
    assert("id"@.len() == 2 && "id"@[0] == 'i');
    assert("title"@.len() == 5 && "title"@[0] == 't');
    assert("text"@.len() == 4 && "text"@[0] == 't');
    let ks = instruction_keys();
    assert forall|i: int, m: int| 0 <= m < i < ks.len() implies ks[m] != ks[i] by {
        assert(ks[m].len() != ks[i].len() || ks[m][0] != ks[i][0]);
    }
}

/// The member names of `ingredient_keys()` are pairwise distinct.
pub proof fn lemma_ingredient_keys_distinct()
    ensures
        forall|i: int, m: int| 0 <= m < i < ingredient_keys().len() ==> ingredient_keys()[m] != ingredient_keys()[i],
{
    reveal_strlit("quantity");
    reveal_strlit("unit");
    reveal_strlit("food");
    reveal_strlit("note");
    reveal_strlit("isFood");
    reveal_strlit("disableAmount");
    reveal_strlit("display");
    reveal_strlit("title");
    reveal_strlit("originalText");
    reveal_strlit("referenceId");
    assert("quantity"@.len() == 8 && "quantity"@[0] == 'q');
    assert("unit"@.len() == 4 && "unit"@[0] == 'u');
    assert("food"@.len() == 4 && "food"@[0] == 'f');
    assert("note"@.len() == 4 && "note"@[0] == 'n');
    assert("isFood"@.len() == 6 && "isFood"@[0] == 'i');
    assert("disableAmount"@.len() == 13 && "disableAmount"@[0] == 'd');
    assert("display"@.len() == 7 && "display"@[0] == 'd');
    assert("title"@.len() == 5 && "title"@[0] == 't');
    assert("originalText"@.len() == 12 && "originalText"@[0] == 'o');
    assert("referenceId"@.len() == 11 && "referenceId"@[0] == 'r');
    let ks = ingredient_keys();
    assert forall|i: int, m: int| 0 <= m < i < ks.len() implies ks[m] != ks[i] by {
        assert(ks[m].len() != ks[i].len() || ks[m][0] != ks[i][0]);
    }
}

/// The member names of `recipe_keys()` are pairwise distinct.
pub proof fn lemma_recipe_keys_distinct()
    ensures
        forall|i: int, m: int| 0 <= m < i < recipe_keys().len() ==> recipe_keys()[m] != recipe_keys()[i],
{
    reveal_strlit("id");
    reveal_strlit("name");
    reveal_strlit("slug");
    reveal_strlit("image");
    reveal_strlit("recipeYield");
    reveal_strlit("totalTime");
    reveal_strlit("prepTime");
    reveal_strlit("cookTime");
    reveal_strlit("performTime");
    reveal_strlit("description");
    reveal_strlit("tags");
    reveal_strlit("orgURL");
    reveal_strlit("recipeIngredient");
    reveal_strlit("recipeInstructions");
    assert("id"@.len() == 2 && "id"@[0] == 'i');
    assert("name"@.len() == 4 && "name"@[0] == 'n');
    assert("slug"@.len() == 4 && "slug"@[0] == 's');
    assert("image"@.len() == 5 && "image"@[0] == 'i');
    assert("recipeYield"@.len() == 11 && "recipeYield"@[0] == 'r');
    assert("totalTime"@.len() == 9 && "totalTime"@[0] == 't');
    assert("prepTime"@.len() == 8 && "prepTime"@[0] == 'p');
    assert("cookTime"@.len() == 8 && "cookTime"@[0] == 'c');
    assert("performTime"@.len() == 11 && "performTime"@[0] == 'p');
    assert("description"@.len() == 11 && "description"@[0] == 'd');
    assert("tags"@.len() == 4 && "tags"@[0] == 't');
    assert("orgURL"@.len() == 6 && "orgURL"@[0] == 'o');
    assert("recipeIngredient"@.len() == 16 && "recipeIngredient"@[0] == 'r');
    assert("recipeInstructions"@.len() == 18 && "recipeInstructions"@[0] == 'r');
    let ks = recipe_keys();
    assert forall|i: int, m: int| 0 <= m < i < ks.len() implies ks[m] != ks[i] by {
        assert(ks[m].len() != ks[i].len() || ks[m][0] != ks[i][0]);
    }
}

/// A tag reads back from the object it is written as.
pub proof fn lemma_tag_reads_back(j: JsonView, v: TagView)
    requires
        writes_tag(j, v),
    ensures
        tag_model(j) == Some(v),
{
    lemma_tag_keys_distinct();
    lemma_members_at(j->Object_0, tag_keys());
}

/// A step reads back from the object it is written as.
pub proof fn lemma_instruction_reads_back(j: JsonView, v: InstructionView)
    requires
        writes_instruction(j, v),
    ensures
        instruction_model(j) == Some(v),
{
    lemma_instruction_keys_distinct();
    lemma_members_at(j->Object_0, instruction_keys());
}

/// An ingredient line reads back from the object it is written as.
pub proof fn lemma_ingredient_reads_back(j: JsonView, v: IngredientView)
    requires
        writes_ingredient(j, v),
    ensures
        ingredient_model(j) == Some(v),
{
    lemma_ingredient_keys_distinct();
    lemma_members_at(j->Object_0, ingredient_keys());
}

/// Tags read back, in order, from the array they are written as.
pub proof fn lemma_tags_read_back(j: JsonView, vs: Seq<TagView>)
    requires
        writes_tags(j, vs),
    ensures
        array_field(Some(j)) is Some,
        tags_model(array_field(Some(j))->0) == Some(vs),
{
    let items = j->Array_0;
    assert forall|i: int| 0 <= i < items.len() implies tag_model(items[i]) == Some(vs[i]) by {
        lemma_tag_reads_back(items[i], vs[i]);
    }
    assert(items.map_values(|x: JsonView| tag_model(x)->0) =~= vs);
}

/// Steps read back, in order, from the array they are written as.
pub proof fn lemma_instructions_read_back(j: JsonView, vs: Seq<InstructionView>)
    requires
        writes_instructions(j, vs),
    ensures
        array_field(Some(j)) is Some,
        instructions_model(array_field(Some(j))->0) == Some(vs),
{
    let items = j->Array_0;
    assert forall|i: int| 0 <= i < items.len() implies instruction_model(items[i]) == Some(vs[i]) by {
        lemma_instruction_reads_back(items[i], vs[i]);
    }
    assert(items.map_values(|x: JsonView| instruction_model(x)->0) =~= vs);
}

/// Ingredient lines read back, in order, from the array they are written as.
pub proof fn lemma_ingredients_read_back(j: JsonView, vs: Seq<IngredientView>)
    requires
        writes_ingredients(j, vs),
    ensures
        array_field(Some(j)) is Some,
        ingredients_model(array_field(Some(j))->0) == Some(vs),
{
    let items = j->Array_0;
    assert forall|i: int| 0 <= i < items.len() implies ingredient_model(items[i]) == Some(vs[i]) by {
        lemma_ingredient_reads_back(items[i], vs[i]);
    }
    assert(items.map_values(|x: JsonView| ingredient_model(x)->0) =~= vs);
}

/// Round trip: a recipe reads back, equal in every field, from the object it
/// is written as.
pub proof fn lemma_round_trip(j: JsonView, v: RecipeView)
    requires
        writes_recipe(j, v),
    ensures
        recipe_model(j) == Some(v),
{
    lemma_recipe_keys_distinct();
    lemma_members_at(j->Object_0, recipe_keys());
    let es = j->Object_0;
    lemma_tags_read_back(es[10].1, v.tags);
    lemma_ingredients_read_back(es[12].1, v.recipe_ingredient);
    lemma_instructions_read_back(es[13].1, v.recipe_instructions);
}

/// Binding keeps the order of the source arrays: the recipe's i-th tag,
/// ingredient line and step are bound from the i-th element of `tags`,
/// `recipeIngredient` and `recipeInstructions`.
pub proof fn lemma_order_kept(j: JsonView)
    requires
        recipe_model(j) is Some,
    ensures
        ({
            let r = recipe_model(j)->0;
            let tags = array_field(member(j, "tags"@))->0;
            let lines = array_field(member(j, "recipeIngredient"@))->0;
            let steps = array_field(member(j, "recipeInstructions"@))->0;
            &&& r.tags.len() == tags.len()
            &&& forall|i: int| 0 <= i < tags.len() ==> Some(r.tags[i]) == tag_model(#[trigger] tags[i])
            &&& r.recipe_ingredient.len() == lines.len()
            &&& forall|i: int|
                0 <= i < lines.len() ==> Some(r.recipe_ingredient[i]) == ingredient_model(
                    #[trigger] lines[i],
                )
            &&& r.recipe_instructions.len() == steps.len()
            &&& forall|i: int|
                0 <= i < steps.len() ==> Some(r.recipe_instructions[i]) == instruction_model(
                    #[trigger] steps[i],
                )
        }),
{
}

/// A document that lacks a required member binds to no recipe.
pub proof fn lemma_required_member_missing(j: JsonView)
    requires
        member(j, "id"@) is None
            || member(j, "name"@) is None
            || member(j, "slug"@) is None
            || member(j, "image"@) is None
            || member(j, "tags"@) is None
            || member(j, "recipeIngredient"@) is None
            || member(j, "recipeInstructions"@) is None,
    ensures
        recipe_model(j) is None,
{
}

/// A document without `cookTime`, or with `cookTime` null, binds to a recipe
/// whose cook time is absent.
pub proof fn lemma_cook_time_absent(j: JsonView)
    requires
        recipe_model(j) is Some,
        member(j, "cookTime"@) is None || member(j, "cookTime"@) == Some(JsonView::Null),
    ensures
        recipe_model(j)->0.cook_time is None,
{
}

/// A member inserted under another name does not change a lookup.
pub proof fn lemma_entry_insert(
    es: Seq<(Seq<char>, JsonView)>,
    p: int,
    x: (Seq<char>, JsonView),
    key: Seq<char>,
)
    requires
        0 <= p <= es.len(),
        x.0 != key,
    ensures
        entry_of(es.insert(p, x), key) == entry_of(es, key),
    decreases p,
{
    let e2 = es.insert(p, x);
    if p == 0 {
        assert(e2.drop_first() =~= es);
    } else {
        assert(e2[0] == es[0]);
        assert(e2.drop_first() =~= es.drop_first().insert(p - 1, x));
        lemma_entry_insert(es.drop_first(), p - 1, x, key);
    }
}

/// Members with names the recipe does not read are ignored: inserting one
/// anywhere in an object leaves what it binds to unchanged.
pub proof fn lemma_extra_member_ignored(es: Seq<(Seq<char>, JsonView)>, p: int, x: (Seq<char>, JsonView))
    requires
        0 <= p <= es.len(),
        !recipe_keys().contains(x.0),
    ensures
        recipe_model(JsonView::Object(es.insert(p, x))) == recipe_model(JsonView::Object(es)),
{
    let ks = recipe_keys();
    assert(ks[0] == "id"@);
    assert(ks[1] == "name"@);
    assert(ks[2] == "slug"@);
    assert(ks[3] == "image"@);
    assert(ks[4] == "recipeYield"@);
    assert(ks[5] == "totalTime"@);
    assert(ks[6] == "prepTime"@);
    assert(ks[7] == "cookTime"@);
    assert(ks[8] == "performTime"@);
    assert(ks[9] == "description"@);
    assert(ks[10] == "tags"@);
    assert(ks[11] == "orgURL"@);
    assert(ks[12] == "recipeIngredient"@);
    assert(ks[13] == "recipeInstructions"@);
    assert forall|i: int| 0 <= i < ks.len() implies entry_of(es.insert(p, x), #[trigger] ks[i])
        == entry_of(es, ks[i]) by {
        assert(ks.contains(ks[i]));
        lemma_entry_insert(es, p, x, ks[i]);
    }
}

} // verus!
