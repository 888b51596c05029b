//! The recipe entities, their structural binding from a JSON document, and the
//! inverse encoding.
use vstd::prelude::*;

use crate::ids::{parse_uuid, uuid_to_text, uuid_value_of};
use crate::error::{JsonFailure, RecipeError, RecipeResult};
use crate::laws::{
    lemma_ingredient_reads_back, lemma_instruction_reads_back, lemma_round_trip,
    lemma_tag_reads_back,
};
use crate::json::{document_of, get_member, is_json_text, member, Json, JsonView};

verus! {

// ---------------------------------------------------------------------------
// Field decoders: `None` is a shape mismatch; for optional fields, a missing
// member or `null` reads as absent.

/// The text of an optional string.
pub open spec fn opt_view(o: Option<String>) -> Option<Seq<char>> {
    match o {
        Some(s) => Some(s@),
        None => None,
    }
}

/// A required string member.
pub open spec fn text_field(f: Option<JsonView>) -> Option<Seq<char>> {
    match f {
        Some(JsonView::Str(s)) => Some(s),
        _ => None,
    }
}

/// An optional string member.
pub open spec fn opt_text_field(f: Option<JsonView>) -> Option<Option<Seq<char>>> {
    match f {
        None => Some(None),
        Some(JsonView::Null) => Some(None),
        Some(JsonView::Str(s)) => Some(Some(s)),
        _ => None,
    }
}

/// A required boolean member.
pub open spec fn bool_field(f: Option<JsonView>) -> Option<bool> {
    match f {
        Some(JsonView::Bool(b)) => Some(b),
        _ => None,
    }
}

/// A required number member.
pub open spec fn number_field(f: Option<JsonView>) -> Option<serde_json::Number> {
    match f {
        Some(JsonView::Number(n)) => Some(n),
        _ => None,
    }
}

/// A required UUID text member.
pub open spec fn uuid_field(f: Option<JsonView>) -> Option<u128> {
    match f {
        Some(JsonView::Str(s)) => uuid_value_of(s),
        _ => None,
    }
}

/// An optional UUID text member.
pub open spec fn opt_uuid_field(f: Option<JsonView>) -> Option<Option<u128>> {
    match f {
        None => Some(None),
        Some(JsonView::Null) => Some(None),
        Some(JsonView::Str(s)) => match uuid_value_of(s) {
            Some(u) => Some(Some(u)),
            None => None,
        },
        _ => None,
    }
}

/// A required array member.
pub open spec fn array_field(f: Option<JsonView>) -> Option<Seq<JsonView>> {
    match f {
        Some(JsonView::Array(v)) => Some(v),
        _ => None,
    }
}

/// The values a sequence of `Json` stands for.
pub open spec fn views(s: Seq<Json>) -> Seq<JsonView> {
    s.map_values(|x: Json| x@)
}

/// The value of the member a lookup found.
pub open spec fn deref(f: Option<&Json>) -> Option<JsonView> {
    match f {
        Some(x) => Some(x@),
        None => None,
    }
}

fn read_text(f: Option<&Json>) -> (r: Option<String>)
    ensures
        opt_view(r) == text_field(deref(f)),
{
    match f {
        Some(Json::Str(s)) => Some(s.clone()),
        _ => None,
    }
}

fn read_opt_text(f: Option<&Json>) -> (r: Option<Option<String>>)
    ensures
        match r {
            Some(o) => opt_text_field(deref(f)) == Some(opt_view(o)),
            None => opt_text_field(deref(f)) is None,
        },
{
    match f {
        None => Some(None),
        Some(Json::Null) => Some(None),
        Some(Json::Str(s)) => Some(Some(s.clone())),
        _ => None,
    }
}

fn read_bool(f: Option<&Json>) -> (r: Option<bool>)
    ensures
        r == bool_field(deref(f)),
{
    match f {
        Some(Json::Bool(b)) => Some(*b),
        _ => None,
    }
}

fn read_number(f: Option<&Json>) -> (r: Option<serde_json::Number>)
    ensures
        r == number_field(deref(f)),
{
    match f {
        Some(Json::Number(n)) => Some(n.clone()),
        _ => None,
    }
}

fn read_uuid(f: Option<&Json>) -> (r: Option<u128>)
    ensures
        r == uuid_field(deref(f)),
{
    match f {
        Some(Json::Str(s)) => parse_uuid(s.as_str()),
        _ => None,
    }
}

fn read_opt_uuid(f: Option<&Json>) -> (r: Option<Option<u128>>)
    ensures
        r == opt_uuid_field(deref(f)),
{
    match f {
        None => Some(None),
        Some(Json::Null) => Some(None),
        Some(Json::Str(s)) => match parse_uuid(s.as_str()) {
            Some(u) => Some(Some(u)),
            None => None,
        },
        _ => None,
    }
}

// ---------------------------------------------------------------------------
// Tag

/// A labelled category attached to a recipe.
#[derive(Clone, Debug)]
pub struct Tag {
    id: u128,
    name: String,
    slug: String,
}

/// The value a `Tag` stands for.
pub struct TagView {
    pub id: u128,
    pub name: Seq<char>,
    pub slug: Seq<char>,
}

impl View for Tag {
    type V = TagView;

    closed spec fn view(&self) -> TagView {
        TagView { id: self.id, name: self.name@, slug: self.slug@ }
    }
}

/// The tag an object denotes: members `id` (a UUID text), `name` and `slug`.
pub open spec fn tag_model(j: JsonView) -> Option<TagView> {
    let id = uuid_field(member(j, "id"@));
    let name = text_field(member(j, "name"@));
    let slug = text_field(member(j, "slug"@));
    if id is Some && name is Some && slug is Some {
        Some(TagView { id: id->0, name: name->0, slug: slug->0 })
    } else {
        None
    }
}

/// The tags an array denotes, in order; `None` if any element is no tag.
pub open spec fn tags_model(s: Seq<JsonView>) -> Option<Seq<TagView>> {
    if forall|i: int| 0 <= i < s.len() ==> (#[trigger] tag_model(s[i])) is Some {
        Some(s.map_values(|x: JsonView| tag_model(x)->0))
    } else {
        None
    }
}

impl Tag {
    pub fn new(id: u128, name: String, slug: String) -> (r: Tag)
        ensures
            r@ == (TagView { id, name: name@, slug: slug@ }),
    {
        Tag { id, name, slug }
    }

    /// Binds a JSON object onto a tag.
    pub fn from_json(j: &Json) -> (r: Option<Tag>)
        ensures
            match r {
                Some(t) => tag_model(j@) == Some(t@),
                None => tag_model(j@) is None,
            },
    {
        let id = match read_uuid(get_member(j, "id")) {
            Some(x) => x,
            None => return None,
        };
        let name = match read_text(get_member(j, "name")) {
            Some(x) => x,
            None => return None,
        };
        let slug = match read_text(get_member(j, "slug")) {
            Some(x) => x,
            None => return None,
        };
        Some(Tag { id, name, slug })
    }

    pub fn get_id(&self) -> (r: u128)
        ensures
            r == self@.id,
    {
        self.id
    }

    pub fn get_name(&self) -> (r: &str)
        ensures
            r@ == self@.name,
    {
        self.name.as_str()
    }

    pub fn get_slug(&self) -> (r: &str)
        ensures
            r@ == self@.slug,
    {
        self.slug.as_str()
    }
}

fn bind_tags(items: &Vec<Json>) -> (r: Option<Vec<Tag>>)
    ensures
        match r {
            Some(v) => tags_model(views(items@)) == Some(v@.map_values(|t: Tag| t@)),
            None => tags_model(views(items@)) is None,
        },
{
    let mut out: Vec<Tag> = Vec::new();
    for i in 0..items.len()
        invariant
            out@.len() == i,
            forall|k: int| 0 <= k < i ==> tag_model(items@[k]@) == Some(#[trigger] out@[k]@),
    {
        match Tag::from_json(&items[i]) {
            Some(t) => out.push(t),
            None => {
                assert(views(items@)[i as int] == items@[i as int]@);
                assert(tag_model(items@[i as int]@) is None);
                return None;
            },
        }
    }
    assert(tags_model(views(items@)) == Some(out@.map_values(|t: Tag| t@))) by {
        assert(forall|k: int| 0 <= k < items@.len() ==> tag_model(items@[k]@) == Some(out@[k]@));
        assert(views(items@).map_values(|x: JsonView| tag_model(x)->0) =~= out@.map_values(|t: Tag| t@));
    }
    Some(out)
}

// ---------------------------------------------------------------------------
// RecipeInstruction

/// One step of a recipe's method.
#[derive(Clone, Debug)]
pub struct RecipeInstruction {
    id: u128,
    title: String,
    text: String,
}

/// The value a `RecipeInstruction` stands for.
pub struct InstructionView {
    pub id: u128,
    pub title: Seq<char>,
    pub text: Seq<char>,
}

impl View for RecipeInstruction {
    type V = InstructionView;

    closed spec fn view(&self) -> InstructionView {
        InstructionView { id: self.id, title: self.title@, text: self.text@ }
    }
}

/// The step an object denotes: members `id` (a UUID text), `title` and `text`.
pub open spec fn instruction_model(j: JsonView) -> Option<InstructionView> {
    let id = uuid_field(member(j, "id"@));
    let title = text_field(member(j, "title"@));
    let text = text_field(member(j, "text"@));
    if id is Some && title is Some && text is Some {
        Some(InstructionView { id: id->0, title: title->0, text: text->0 })
    } else {
        None
    }
}

/// The steps an array denotes, in order; `None` if any element is no step.
pub open spec fn instructions_model(s: Seq<JsonView>) -> Option<Seq<InstructionView>> {
    if forall|i: int| 0 <= i < s.len() ==> (#[trigger] instruction_model(s[i])) is Some {
        Some(s.map_values(|x: JsonView| instruction_model(x)->0))
    } else {
        None
    }
}

impl Default for RecipeInstruction {
    /// The empty step: nil identifier, empty title and text.
    fn default() -> (r: RecipeInstruction)
        ensures
            r@ == (InstructionView { id: 0, title: Seq::empty(), text: Seq::empty() }),
    {
        RecipeInstruction { id: 0, title: String::new(), text: String::new() }
    }
}

impl RecipeInstruction {
    pub fn new(id: u128, title: String, text: String) -> (r: RecipeInstruction)
        ensures
            r@ == (InstructionView { id, title: title@, text: text@ }),
    {
        RecipeInstruction { id, title, text }
    }

    /// Binds a JSON object onto a step.
    pub fn from_json(j: &Json) -> (r: Option<RecipeInstruction>)
        ensures
            match r {
                Some(t) => instruction_model(j@) == Some(t@),
                None => instruction_model(j@) is None,
            },
    {
        let id = match read_uuid(get_member(j, "id")) {
            Some(x) => x,
            None => return None,
        };
        let title = match read_text(get_member(j, "title")) {
            Some(x) => x,
            None => return None,
        };
        let text = match read_text(get_member(j, "text")) {
            Some(x) => x,
            None => return None,
        };
        Some(RecipeInstruction { id, title, text })
    }

    pub fn get_id(&self) -> (r: u128)
        ensures
            r == self@.id,
    {
        self.id
    }

    pub fn get_title(&self) -> (r: &str)
        ensures
            r@ == self@.title,
    {
        self.title.as_str()
    }

    pub fn get_text(&self) -> (r: &str)
        ensures
            r@ == self@.text,
    {
        self.text.as_str()
    }
}

fn bind_instructions(items: &Vec<Json>) -> (r: Option<Vec<RecipeInstruction>>)
    ensures
        match r {
            Some(v) => instructions_model(views(items@)) == Some(
                v@.map_values(|t: RecipeInstruction| t@),
            ),
            None => instructions_model(views(items@)) is None,
        },
{
    let mut out: Vec<RecipeInstruction> = Vec::new();
    for i in 0..items.len()
        invariant
            out@.len() == i,
            forall|k: int| 0 <= k < i ==> instruction_model(items@[k]@) == Some(#[trigger] out@[k]@),
    {
        match RecipeInstruction::from_json(&items[i]) {
            Some(t) => out.push(t),
            None => {
                assert(views(items@)[i as int] == items@[i as int]@);
                assert(instruction_model(items@[i as int]@) is None);
                return None;
            },
        }
    }
    assert(instructions_model(views(items@)) == Some(out@.map_values(|t: RecipeInstruction| t@))) by {
        assert(forall|k: int|
            0 <= k < items@.len() ==> instruction_model(items@[k]@) == Some(out@[k]@));
        assert(views(items@).map_values(|x: JsonView| instruction_model(x)->0) =~= out@.map_values(
            |t: RecipeInstruction| t@,
        ));
    }
    Some(out)
}

// ---------------------------------------------------------------------------
// RecipeIngredient

/// One line of a recipe's ingredient list. `display` is taken as given.
#[derive(Clone, Debug)]
pub struct RecipeIngredient {
    quantity: serde_json::Number,
    unit: Option<String>,
    food: Option<String>,
    note: String,
    is_food: bool,
    disable_amount: bool,
    display: String,
    title: Option<String>,
    original_text: Option<String>,
    reference_id: Option<u128>,
}

/// The value a `RecipeIngredient` stands for.
pub struct IngredientView {
    pub quantity: serde_json::Number,
    pub unit: Option<Seq<char>>,
    pub food: Option<Seq<char>>,
    pub note: Seq<char>,
    pub is_food: bool,
    pub disable_amount: bool,
    pub display: Seq<char>,
    pub title: Option<Seq<char>>,
    pub original_text: Option<Seq<char>>,
    pub reference_id: Option<u128>,
}

impl View for RecipeIngredient {
    type V = IngredientView;

    closed spec fn view(&self) -> IngredientView {
        IngredientView {
            quantity: self.quantity,
            unit: opt_view(self.unit),
            food: opt_view(self.food),
            note: self.note@,
            is_food: self.is_food,
            disable_amount: self.disable_amount,
            display: self.display@,
            title: opt_view(self.title),
            original_text: opt_view(self.original_text),
            reference_id: self.reference_id,
        }
    }
}

/// The ingredient an object denotes. Required: `quantity` (a number), `note`,
/// `isFood`, `disableAmount`, `display`; optional: `unit`, `food`, `title`,
/// `originalText`, `referenceId` (a UUID text).
pub open spec fn ingredient_model(j: JsonView) -> Option<IngredientView> {
    let quantity = number_field(member(j, "quantity"@));
    let unit = opt_text_field(member(j, "unit"@));
    let food = opt_text_field(member(j, "food"@));
    let note = text_field(member(j, "note"@));
    let is_food = bool_field(member(j, "isFood"@));
    let disable_amount = bool_field(member(j, "disableAmount"@));
    let display = text_field(member(j, "display"@));
    let title = opt_text_field(member(j, "title"@));
    let original_text = opt_text_field(member(j, "originalText"@));
    let reference_id = opt_uuid_field(member(j, "referenceId"@));
    if quantity is Some && unit is Some && food is Some && note is Some && is_food is Some
        && disable_amount is Some && display is Some && title is Some && original_text is Some
        && reference_id is Some {
        Some(
            IngredientView {
                quantity: quantity->0,
                unit: unit->0,
                food: food->0,
                note: note->0,
                is_food: is_food->0,
                disable_amount: disable_amount->0,
                display: display->0,
                title: title->0,
                original_text: original_text->0,
                reference_id: reference_id->0,
            },
        )
    } else {
        None
    }
}

/// The ingredients an array denotes, in order; `None` if any element fails.
pub open spec fn ingredients_model(s: Seq<JsonView>) -> Option<Seq<IngredientView>> {
    if forall|i: int| 0 <= i < s.len() ==> (#[trigger] ingredient_model(s[i])) is Some {
        Some(s.map_values(|x: JsonView| ingredient_model(x)->0))
    } else {
        None
    }
}

impl RecipeIngredient {
    pub fn new(
        quantity: serde_json::Number,
        unit: Option<String>,
        food: Option<String>,
        note: String,
        is_food: bool,
        disable_amount: bool,
        display: String,
        title: Option<String>,
        original_text: Option<String>,
        reference_id: Option<u128>,
    ) -> (r: RecipeIngredient)
        ensures
            r@ == (IngredientView {
                quantity,
                unit: opt_view(unit),
                food: opt_view(food),
                note: note@,
                is_food,
                disable_amount,
                display: display@,
                title: opt_view(title),
                original_text: opt_view(original_text),
                reference_id,
            }),
    {
        RecipeIngredient {
            quantity,
            unit,
            food,
            note,
            is_food,
            disable_amount,
            display,
            title,
            original_text,
            reference_id,
        }
    }

    /// Binds a JSON object onto an ingredient line.
    pub fn from_json(j: &Json) -> (r: Option<RecipeIngredient>)
        ensures
            match r {
                Some(t) => ingredient_model(j@) == Some(t@),
                None => ingredient_model(j@) is None,
            },
    {
        let quantity = match read_number(get_member(j, "quantity")) {
            Some(x) => x,
            None => return None,
        };
        let unit = match read_opt_text(get_member(j, "unit")) {
            Some(x) => x,
            None => return None,
        };
        let food = match read_opt_text(get_member(j, "food")) {
            Some(x) => x,
            None => return None,
        };
        let note = match read_text(get_member(j, "note")) {
            Some(x) => x,
            None => return None,
        };
        let is_food = match read_bool(get_member(j, "isFood")) {
            Some(x) => x,
            None => return None,
        };
        let disable_amount = match read_bool(get_member(j, "disableAmount")) {
            Some(x) => x,
            None => return None,
        };
        let display = match read_text(get_member(j, "display")) {
            Some(x) => x,
            None => return None,
        };
        let title = match read_opt_text(get_member(j, "title")) {
            Some(x) => x,
            None => return None,
        };
        let original_text = match read_opt_text(get_member(j, "originalText")) {
            Some(x) => x,
            None => return None,
        };
        let reference_id = match read_opt_uuid(get_member(j, "referenceId")) {
            Some(x) => x,
            None => return None,
        };
        Some(
            RecipeIngredient {
                quantity,
                unit,
                food,
                note,
                is_food,
                disable_amount,
                display,
                title,
                original_text,
                reference_id,
            },
        )
    }

    /// The amount, as the JSON number it was given as.
    pub fn get_quantity(&self) -> (r: &serde_json::Number)
        ensures
            *r == self@.quantity,
    {
        &self.quantity
    }

    pub fn get_unit(&self) -> (r: &Option<String>)
        ensures
            opt_view(*r) == self@.unit,
    {
        &self.unit
    }

    pub fn get_food(&self) -> (r: &Option<String>)
        ensures
            opt_view(*r) == self@.food,
    {
        &self.food
    }

    pub fn get_note(&self) -> (r: &str)
        ensures
            r@ == self@.note,
    {
        self.note.as_str()
    }

    pub fn get_is_food(&self) -> (r: bool)
        ensures
            r == self@.is_food,
    {
        self.is_food
    }

    pub fn get_disable_amount(&self) -> (r: bool)
        ensures
            r == self@.disable_amount,
    {
        self.disable_amount
    }

    pub fn get_display(&self) -> (r: &str)
        ensures
            r@ == self@.display,
    {
        self.display.as_str()
    }

    pub fn get_title(&self) -> (r: &Option<String>)
        ensures
            opt_view(*r) == self@.title,
    {
        &self.title
    }

    pub fn get_original_text(&self) -> (r: &Option<String>)
        ensures
            opt_view(*r) == self@.original_text,
    {
        &self.original_text
    }

    pub fn get_reference_id(&self) -> (r: Option<u128>)
        ensures
            r == self@.reference_id,
    {
        self.reference_id
    }
}

fn bind_ingredients(items: &Vec<Json>) -> (r: Option<Vec<RecipeIngredient>>)
    ensures
        match r {
            Some(v) => ingredients_model(views(items@)) == Some(v@.map_values(|t: RecipeIngredient| t@)),
            None => ingredients_model(views(items@)) is None,
        },
{
    let mut out: Vec<RecipeIngredient> = Vec::new();
    for i in 0..items.len()
        invariant
            out@.len() == i,
            forall|k: int| 0 <= k < i ==> ingredient_model(items@[k]@) == Some(#[trigger] out@[k]@),
    {
        match RecipeIngredient::from_json(&items[i]) {
            Some(t) => out.push(t),
            None => {
                assert(views(items@)[i as int] == items@[i as int]@);
                assert(ingredient_model(items@[i as int]@) is None);
                return None;
            },
        }
    }
    assert(ingredients_model(views(items@)) == Some(out@.map_values(|t: RecipeIngredient| t@))) by {
        assert(forall|k: int|
            0 <= k < items@.len() ==> ingredient_model(items@[k]@) == Some(out@[k]@));
        assert(views(items@).map_values(|x: JsonView| ingredient_model(x)->0) =~= out@.map_values(
            |t: RecipeIngredient| t@,
        ));
    }
    Some(out)
}

// ---------------------------------------------------------------------------
// Recipe

/// The aggregate root: a recipe with its tags, ingredient lines and steps, all
/// in the order given.
#[derive(Clone, Debug)]
pub struct Recipe {
    id: u128,
    name: String,
    slug: String,
    image: String,
    recipe_yield: Option<String>,
    total_time: Option<String>,
    prep_time: Option<String>,
    cook_time: Option<String>,
    perform_time: Option<String>,
    description: Option<String>,
    tags: Vec<Tag>,
    org_url: Option<String>,
    recipe_ingredient: Vec<RecipeIngredient>,
    recipe_instructions: Vec<RecipeInstruction>,
}

/// The value a `Recipe` stands for.
pub struct RecipeView {
    pub id: u128,
    pub name: Seq<char>,
    pub slug: Seq<char>,
    pub image: Seq<char>,
    pub recipe_yield: Option<Seq<char>>,
    pub total_time: Option<Seq<char>>,
    pub prep_time: Option<Seq<char>>,
    pub cook_time: Option<Seq<char>>,
    pub perform_time: Option<Seq<char>>,
    pub description: Option<Seq<char>>,
    pub tags: Seq<TagView>,
    pub org_url: Option<Seq<char>>,
    pub recipe_ingredient: Seq<IngredientView>,
    pub recipe_instructions: Seq<InstructionView>,
}

impl View for Recipe {
    type V = RecipeView;

    closed spec fn view(&self) -> RecipeView {
        RecipeView {
            id: self.id,
            name: self.name@,
            slug: self.slug@,
            image: self.image@,
            recipe_yield: opt_view(self.recipe_yield),
            total_time: opt_view(self.total_time),
            prep_time: opt_view(self.prep_time),
            cook_time: opt_view(self.cook_time),
            perform_time: opt_view(self.perform_time),
            description: opt_view(self.description),
            tags: self.tags@.map_values(|t: Tag| t@),
            org_url: opt_view(self.org_url),
            recipe_ingredient: self.recipe_ingredient@.map_values(|t: RecipeIngredient| t@),
            recipe_instructions: self.recipe_instructions@.map_values(|t: RecipeInstruction| t@),
        }
    }
}

/// The recipe an object denotes. Required: `id` (a UUID text), `name`, `slug`,
/// `image`, and the arrays `tags`, `recipeIngredient`, `recipeInstructions`;
/// optional: `recipeYield`, `totalTime`, `prepTime`, `cookTime`,
/// `performTime`, `description`, `orgURL`. Other members are ignored.
pub open spec fn recipe_model(j: JsonView) -> Option<RecipeView> {
    let id = uuid_field(member(j, "id"@));
    let name = text_field(member(j, "name"@));
    let slug = text_field(member(j, "slug"@));
    let image = text_field(member(j, "image"@));
    let recipe_yield = opt_text_field(member(j, "recipeYield"@));
    let total_time = opt_text_field(member(j, "totalTime"@));
    let prep_time = opt_text_field(member(j, "prepTime"@));
    let cook_time = opt_text_field(member(j, "cookTime"@));
    let perform_time = opt_text_field(member(j, "performTime"@));
    let description = opt_text_field(member(j, "description"@));
    let tags = array_field(member(j, "tags"@));
    let org_url = opt_text_field(member(j, "orgURL"@));
    let ingredients = array_field(member(j, "recipeIngredient"@));
    let instructions = array_field(member(j, "recipeInstructions"@));
    if id is Some && name is Some && slug is Some && image is Some && recipe_yield is Some
        && total_time is Some && prep_time is Some && cook_time is Some && perform_time is Some
        && description is Some && tags is Some && tags_model(tags->0) is Some && org_url is Some
        && ingredients is Some && ingredients_model(ingredients->0) is Some
        && instructions is Some && instructions_model(instructions->0) is Some {
        Some(
            RecipeView {
                id: id->0,
                name: name->0,
                slug: slug->0,
                image: image->0,
                recipe_yield: recipe_yield->0,
                total_time: total_time->0,
                prep_time: prep_time->0,
                cook_time: cook_time->0,
                perform_time: perform_time->0,
                description: description->0,
                tags: tags_model(tags->0)->0,
                org_url: org_url->0,
                recipe_ingredient: ingredients_model(ingredients->0)->0,
                recipe_instructions: instructions_model(instructions->0)->0,
            },
        )
    } else {
        None
    }
}

fn read_array(f: Option<&Json>) -> (r: Option<&Vec<Json>>)
    ensures
        match r {
            Some(v) => array_field(deref(f)) == Some(views(v@)),
            None => array_field(deref(f)) is None,
        },
{
    match f {
        Some(Json::Array(v)) => {
            assert(views(v@) =~= f.unwrap()@->Array_0);
            Some(v)
        },
        _ => None,
    }
}

impl Recipe {
    pub fn new(
        id: u128,
        name: String,
        slug: String,
        image: String,
        recipe_yield: Option<String>,
        total_time: Option<String>,
        prep_time: Option<String>,
        cook_time: Option<String>,
        perform_time: Option<String>,
        description: Option<String>,
        tags: Vec<Tag>,
        org_url: Option<String>,
        recipe_ingredient: Vec<RecipeIngredient>,
        recipe_instructions: Vec<RecipeInstruction>,
    ) -> (r: Recipe)
        ensures
            r@ == (RecipeView {
                id,
                name: name@,
                slug: slug@,
                image: image@,
                recipe_yield: opt_view(recipe_yield),
                total_time: opt_view(total_time),
                prep_time: opt_view(prep_time),
                cook_time: opt_view(cook_time),
                perform_time: opt_view(perform_time),
                description: opt_view(description),
                tags: tags@.map_values(|t: Tag| t@),
                org_url: opt_view(org_url),
                recipe_ingredient: recipe_ingredient@.map_values(|t: RecipeIngredient| t@),
                recipe_instructions: recipe_instructions@.map_values(|t: RecipeInstruction| t@),
            }),
    {
        Recipe {
            id,
            name,
            slug,
            image,
            recipe_yield,
            total_time,
            prep_time,
            cook_time,
            perform_time,
            description,
            tags,
            org_url,
            recipe_ingredient,
            recipe_instructions,
        }
    }

    /// Binds a JSON document onto a recipe, all or nothing.
    pub fn from_json(j: &Json) -> (r: RecipeResult<Recipe>)
        ensures
            match r {
                Ok(rec) => recipe_model(j@) == Some(rec@),
                Err(e) => recipe_model(j@) is None && e matches RecipeError::JsonError(
                    JsonFailure::Shape,
                ),
            },
    {
        let shape = RecipeError::JsonError(JsonFailure::Shape);
        let id = match read_uuid(get_member(j, "id")) {
            Some(x) => x,
            None => return Err(shape),
        };
        let name = match read_text(get_member(j, "name")) {
            Some(x) => x,
            None => return Err(shape),
        };
        let slug = match read_text(get_member(j, "slug")) {
            Some(x) => x,
            None => return Err(shape),
        };
        let image = match read_text(get_member(j, "image")) {
            Some(x) => x,
            None => return Err(shape),
        };
        let recipe_yield = match read_opt_text(get_member(j, "recipeYield")) {
            Some(x) => x,
            None => return Err(shape),
        };
        let total_time = match read_opt_text(get_member(j, "totalTime")) {
            Some(x) => x,
            None => return Err(shape),
        };
        let prep_time = match read_opt_text(get_member(j, "prepTime")) {
            Some(x) => x,
            None => return Err(shape),
        };
        let cook_time = match read_opt_text(get_member(j, "cookTime")) {
            Some(x) => x,
            None => return Err(shape),
        };
        let perform_time = match read_opt_text(get_member(j, "performTime")) {
            Some(x) => x,
            None => return Err(shape),
        };
        let description = match read_opt_text(get_member(j, "description")) {
            Some(x) => x,
            None => return Err(shape),
        };
        let tags = match read_array(get_member(j, "tags")) {
            Some(v) => match bind_tags(v) {
                Some(x) => x,
                None => return Err(shape),
            },
            None => return Err(shape),
        };
        let org_url = match read_opt_text(get_member(j, "orgURL")) {
            Some(x) => x,
            None => return Err(shape),
        };
        let recipe_ingredient = match read_array(get_member(j, "recipeIngredient")) {
            Some(v) => match bind_ingredients(v) {
                Some(x) => x,
                None => return Err(shape),
            },
            None => return Err(shape),
        };
        let recipe_instructions = match read_array(get_member(j, "recipeInstructions")) {
            Some(v) => match bind_instructions(v) {
                Some(x) => x,
                None => return Err(shape),
            },
            None => return Err(shape),
        };
        Ok(
            Recipe {
                id,
                name,
                slug,
                image,
                recipe_yield,
                total_time,
                prep_time,
                cook_time,
                perform_time,
                description,
                tags,
                org_url,
                recipe_ingredient,
                recipe_instructions,
            },
        )
    }

    /// Decodes a UTF-8 JSON text and binds it onto a recipe. Text that is no
    /// JSON is a syntax failure; JSON of the wrong shape is a shape failure.
    pub fn from_json_slice(text: &[u8]) -> (r: RecipeResult<Recipe>)
        ensures
            !is_json_text(text@) ==> r matches Err(RecipeError::JsonError(JsonFailure::Syntax(_))),
            is_json_text(text@) && recipe_model(document_of(text@)) is Some ==> (r matches Ok(rec)
                && recipe_model(document_of(text@)) == Some(rec@)),
            is_json_text(text@) && recipe_model(document_of(text@)) is None ==> r matches Err(
                RecipeError::JsonError(JsonFailure::Shape),
            ),
    {
        match Json::parse(text) {
            Err(e) => Err(RecipeError::JsonError(JsonFailure::Syntax(e))),
            Ok(j) => Recipe::from_json(&j),
        }
    }
}

impl Recipe {
    pub fn get_id(&self) -> (r: u128)
        ensures
            r == self@.id,
    {
        self.id
    }

    pub fn get_name(&self) -> (r: &str)
        ensures
            r@ == self@.name,
    {
        self.name.as_str()
    }

    pub fn get_slug(&self) -> (r: &str)
        ensures
            r@ == self@.slug,
    {
        self.slug.as_str()
    }

    pub fn get_image(&self) -> (r: &str)
        ensures
            r@ == self@.image,
    {
        self.image.as_str()
    }

    pub fn get_recipe_yield(&self) -> (r: Option<String>)
        ensures
            opt_view(r) == self@.recipe_yield,
    {
        copy_text(&self.recipe_yield)
    }

    pub fn get_total_time(&self) -> (r: Option<String>)
        ensures
            opt_view(r) == self@.total_time,
    {
        copy_text(&self.total_time)
    }

    pub fn get_prep_time(&self) -> (r: Option<String>)
        ensures
            opt_view(r) == self@.prep_time,
    {
        copy_text(&self.prep_time)
    }

    pub fn get_cook_time(&self) -> (r: Option<String>)
        ensures
            opt_view(r) == self@.cook_time,
    {
        copy_text(&self.cook_time)
    }

    pub fn get_perform_time(&self) -> (r: Option<String>)
        ensures
            opt_view(r) == self@.perform_time,
    {
        copy_text(&self.perform_time)
    }

    pub fn get_description(&self) -> (r: Option<String>)
        ensures
            opt_view(r) == self@.description,
    {
        copy_text(&self.description)
    }

    pub fn get_org_url(&self) -> (r: Option<String>)
        ensures
            opt_view(r) == self@.org_url,
    {
        copy_text(&self.org_url)
    }

    pub fn get_tags(&self) -> (r: &Vec<Tag>)
        ensures
            r@.map_values(|t: Tag| t@) == self@.tags,
    {
        &self.tags
    }

    pub fn get_recipe_ingredient(&self) -> (r: &Vec<RecipeIngredient>)
        ensures
            r@.map_values(|t: RecipeIngredient| t@) == self@.recipe_ingredient,
    {
        &self.recipe_ingredient
    }

    pub fn get_recipe_instructions(&self) -> (r: &Vec<RecipeInstruction>)
        ensures
            r@.map_values(|t: RecipeInstruction| t@) == self@.recipe_instructions,
    {
        &self.recipe_instructions
    }
}

fn copy_text(o: &Option<String>) -> (r: Option<String>)
    ensures
        opt_view(r) == opt_view(*o),
{
    match o {
        Some(s) => Some(s.clone()),
        None => None,
    }
}

// ---------------------------------------------------------------------------
// Encoding: the JSON a value is written as. Objects list their members in a
// fixed order; an absent optional field is written as `null`.

pub open spec fn is_text(j: JsonView, s: Seq<char>) -> bool {
    j == JsonView::Str(s)
}

pub open spec fn is_opt_text(j: JsonView, o: Option<Seq<char>>) -> bool {
    match o {
        Some(s) => is_text(j, s),
        None => j is Null,
    }
}

pub open spec fn is_bool(j: JsonView, b: bool) -> bool {
    j == JsonView::Bool(b)
}

pub open spec fn is_number(j: JsonView, n: serde_json::Number) -> bool {
    j == JsonView::Number(n)
}

pub open spec fn is_uuid(j: JsonView, u: u128) -> bool {
    match j {
        JsonView::Str(t) => uuid_value_of(t) == Some(u),
        _ => false,
    }
}

pub open spec fn is_opt_uuid(j: JsonView, o: Option<u128>) -> bool {
    match o {
        Some(u) => is_uuid(j, u),
        None => j is Null,
    }
}

/// The member names of a tag object, in the order they are written.
pub open spec fn tag_keys() -> Seq<Seq<char>> {
    seq![
        "id"@,
        "name"@,
        "slug"@,
    ]
}

/// The member names of a step object, in the order they are written.
pub open spec fn instruction_keys() -> Seq<Seq<char>> {
    seq![
        "id"@,
        "title"@,
        "text"@,
    ]
}

/// The member names of an ingredient object, in the order they are written.
pub open spec fn ingredient_keys() -> Seq<Seq<char>> {
    seq![
        "quantity"@,
        "unit"@,
        "food"@,
        "note"@,
        "isFood"@,
        "disableAmount"@,
        "display"@,
        "title"@,
        "originalText"@,
        "referenceId"@,
    ]
}

/// The member names of a recipe object, in the order they are written.
pub open spec fn recipe_keys() -> Seq<Seq<char>> {
    seq![
        "id"@,
        "name"@,
        "slug"@,
        "image"@,
        "recipeYield"@,
        "totalTime"@,
        "prepTime"@,
        "cookTime"@,
        "performTime"@,
        "description"@,
        "tags"@,
        "orgURL"@,
        "recipeIngredient"@,
        "recipeInstructions"@,
    ]
}

/// `j` is the object a tag is written as.
pub open spec fn writes_tag(j: JsonView, v: TagView) -> bool {
    match j {
        JsonView::Object(es) => {
            es.len() == 3
                && forall|i: int| 0 <= i < es.len() ==> #[trigger] es[i].0 == tag_keys()[i]
                && is_uuid(es[0].1, v.id)
                && is_text(es[1].1, v.name)
                && is_text(es[2].1, v.slug)
        },
        _ => false,
    }
}

/// `j` is the object a step is written as.
pub open spec fn writes_instruction(j: JsonView, v: InstructionView) -> bool {
    match j {
        JsonView::Object(es) => {
            es.len() == 3
                && forall|i: int| 0 <= i < es.len() ==> #[trigger] es[i].0 == instruction_keys()[i]
                && is_uuid(es[0].1, v.id)
                && is_text(es[1].1, v.title)
                && is_text(es[2].1, v.text)
        },
        _ => false,
    }
}

/// `j` is the object an ingredient line is written as.
pub open spec fn writes_ingredient(j: JsonView, v: IngredientView) -> bool {
    match j {
        JsonView::Object(es) => {
            es.len() == 10
                && forall|i: int| 0 <= i < es.len() ==> #[trigger] es[i].0 == ingredient_keys()[i]
                && is_number(es[0].1, v.quantity)
                && is_opt_text(es[1].1, v.unit)
                && is_opt_text(es[2].1, v.food)
                && is_text(es[3].1, v.note)
                && is_bool(es[4].1, v.is_food)
                && is_bool(es[5].1, v.disable_amount)
                && is_text(es[6].1, v.display)
                && is_opt_text(es[7].1, v.title)
                && is_opt_text(es[8].1, v.original_text)
                && is_opt_uuid(es[9].1, v.reference_id)
        },
        _ => false,
    }
}

pub open spec fn writes_tags(j: JsonView, vs: Seq<TagView>) -> bool {
    match j {
        JsonView::Array(items) => items.len() == vs.len() && forall|i: int|
            0 <= i < vs.len() ==> #[trigger] writes_tag(items[i], vs[i]),
        _ => false,
    }
}

pub open spec fn writes_instructions(j: JsonView, vs: Seq<InstructionView>) -> bool {
    match j {
        JsonView::Array(items) => items.len() == vs.len() && forall|i: int|
            0 <= i < vs.len() ==> #[trigger] writes_instruction(items[i], vs[i]),
        _ => false,
    }
}

pub open spec fn writes_ingredients(j: JsonView, vs: Seq<IngredientView>) -> bool {
    match j {
        JsonView::Array(items) => items.len() == vs.len() && forall|i: int|
            0 <= i < vs.len() ==> #[trigger] writes_ingredient(items[i], vs[i]),
        _ => false,
    }
}

/// `j` is the object a recipe is written as.
pub open spec fn writes_recipe(j: JsonView, v: RecipeView) -> bool {
    match j {
        JsonView::Object(es) => {
            es.len() == 14
                && forall|i: int| 0 <= i < es.len() ==> #[trigger] es[i].0 == recipe_keys()[i]
                && is_uuid(es[0].1, v.id)
                && is_text(es[1].1, v.name)
                && is_text(es[2].1, v.slug)
                && is_text(es[3].1, v.image)
                && is_opt_text(es[4].1, v.recipe_yield)
                && is_opt_text(es[5].1, v.total_time)
                && is_opt_text(es[6].1, v.prep_time)
                && is_opt_text(es[7].1, v.cook_time)
                && is_opt_text(es[8].1, v.perform_time)
                && is_opt_text(es[9].1, v.description)
                && writes_tags(es[10].1, v.tags)
                && is_opt_text(es[11].1, v.org_url)
                && writes_ingredients(es[12].1, v.recipe_ingredient)
                && writes_instructions(es[13].1, v.recipe_instructions)
        },
        _ => false,
    }
}

fn text_json(s: &String) -> (r: Json)
    ensures
        is_text(r@, s@),
{
    Json::Str(s.clone())
}

fn opt_text_json(o: &Option<String>) -> (r: Json)
    ensures
        is_opt_text(r@, opt_view(*o)),
{
    match o {
        Some(s) => Json::Str(s.clone()),
        None => Json::Null,
    }
}

fn number_json(n: &serde_json::Number) -> (r: Json)
    ensures
        is_number(r@, *n),
{
    Json::Number(n.clone())
}

fn bool_json(b: bool) -> (r: Json)
    ensures
        is_bool(r@, b),
{
    Json::Bool(b)
}

fn uuid_json(u: u128) -> (r: Json)
    ensures
        is_uuid(r@, u),
{
    Json::Str(uuid_to_text(u))
}

fn opt_uuid_json(o: Option<u128>) -> (r: Json)
    ensures
        is_opt_uuid(r@, o),
{
    match o {
        Some(u) => uuid_json(u),
        None => Json::Null,
    }
}

impl Tag {
    /// The JSON object this tag is written as; it binds back to the same tag.
    pub fn to_json(&self) -> (r: Json)
        ensures
            writes_tag(r@, self@),
            tag_model(r@) == Some(self@),
    {
        let mut es: Vec<(String, Json)> = Vec::new();
        es.push(("id".to_owned(), uuid_json(self.id)));
        es.push(("name".to_owned(), text_json(&self.name)));
        es.push(("slug".to_owned(), text_json(&self.slug)));
        let r = Json::Object(es);
        proof {
            lemma_tag_reads_back(r@, self@);
        }
        r
    }
}

impl RecipeInstruction {
    /// The JSON object this step is written as; it binds back to the same step.
    pub fn to_json(&self) -> (r: Json)
        ensures
            writes_instruction(r@, self@),
            instruction_model(r@) == Some(self@),
    {
        let mut es: Vec<(String, Json)> = Vec::new();
        es.push(("id".to_owned(), uuid_json(self.id)));
        es.push(("title".to_owned(), text_json(&self.title)));
        es.push(("text".to_owned(), text_json(&self.text)));
        let r = Json::Object(es);
        proof {
            lemma_instruction_reads_back(r@, self@);
        }
        r
    }
}

impl RecipeIngredient {
    /// The JSON object this ingredient line is written as; it binds back to the same ingredient line.
    pub fn to_json(&self) -> (r: Json)
        ensures
            writes_ingredient(r@, self@),
            ingredient_model(r@) == Some(self@),
    {
        let mut es: Vec<(String, Json)> = Vec::new();
        es.push(("quantity".to_owned(), number_json(&self.quantity)));
        es.push(("unit".to_owned(), opt_text_json(&self.unit)));
        es.push(("food".to_owned(), opt_text_json(&self.food)));
        es.push(("note".to_owned(), text_json(&self.note)));
        es.push(("isFood".to_owned(), bool_json(self.is_food)));
        es.push(("disableAmount".to_owned(), bool_json(self.disable_amount)));
        es.push(("display".to_owned(), text_json(&self.display)));
        es.push(("title".to_owned(), opt_text_json(&self.title)));
        es.push(("originalText".to_owned(), opt_text_json(&self.original_text)));
        es.push(("referenceId".to_owned(), opt_uuid_json(self.reference_id)));
        let r = Json::Object(es);
        proof {
            lemma_ingredient_reads_back(r@, self@);
        }
        r
    }
}

fn tags_json(v: &Vec<Tag>) -> (r: Json)
    ensures
        writes_tags(r@, v@.map_values(|t: Tag| t@)),
{
    let mut out: Vec<Json> = Vec::new();
    for i in 0..v.len()
        invariant
            out@.len() == i,
            forall|k: int| 0 <= k < i ==> writes_tag(#[trigger] out@[k]@, v@[k]@),
    {
        out.push(v[i].to_json());
    }
    let r = Json::Array(out);
    assert forall|k: int| 0 <= k < out@.len() implies r@->Array_0[k] == out@[k]@ by {}
    r
}

fn instructions_json(v: &Vec<RecipeInstruction>) -> (r: Json)
    ensures
        writes_instructions(r@, v@.map_values(|t: RecipeInstruction| t@)),
{
    let mut out: Vec<Json> = Vec::new();
    for i in 0..v.len()
        invariant
            out@.len() == i,
            forall|k: int| 0 <= k < i ==> writes_instruction(#[trigger] out@[k]@, v@[k]@),
    {
        out.push(v[i].to_json());
    }
    let r = Json::Array(out);
    assert forall|k: int| 0 <= k < out@.len() implies r@->Array_0[k] == out@[k]@ by {}
    r
}

fn ingredients_json(v: &Vec<RecipeIngredient>) -> (r: Json)
    ensures
        writes_ingredients(r@, v@.map_values(|t: RecipeIngredient| t@)),
{
    let mut out: Vec<Json> = Vec::new();
    for i in 0..v.len()
        invariant
            out@.len() == i,
            forall|k: int| 0 <= k < i ==> writes_ingredient(#[trigger] out@[k]@, v@[k]@),
    {
        out.push(v[i].to_json());
    }
    let r = Json::Array(out);
    assert forall|k: int| 0 <= k < out@.len() implies r@->Array_0[k] == out@[k]@ by {}
    r
}

impl Recipe {
    /// The JSON object this recipe is written as; it binds back to the same recipe.
    pub fn to_json(&self) -> (r: Json)
        ensures
            writes_recipe(r@, self@),
            recipe_model(r@) == Some(self@),
    {
        let mut es: Vec<(String, Json)> = Vec::new();
        es.push(("id".to_owned(), uuid_json(self.id)));
        es.push(("name".to_owned(), text_json(&self.name)));
        es.push(("slug".to_owned(), text_json(&self.slug)));
        es.push(("image".to_owned(), text_json(&self.image)));
        es.push(("recipeYield".to_owned(), opt_text_json(&self.recipe_yield)));
        es.push(("totalTime".to_owned(), opt_text_json(&self.total_time)));
        es.push(("prepTime".to_owned(), opt_text_json(&self.prep_time)));
        es.push(("cookTime".to_owned(), opt_text_json(&self.cook_time)));
        es.push(("performTime".to_owned(), opt_text_json(&self.perform_time)));
        es.push(("description".to_owned(), opt_text_json(&self.description)));
        es.push(("tags".to_owned(), tags_json(&self.tags)));
        es.push(("orgURL".to_owned(), opt_text_json(&self.org_url)));
        es.push(("recipeIngredient".to_owned(), ingredients_json(&self.recipe_ingredient)));
        es.push(("recipeInstructions".to_owned(), instructions_json(&self.recipe_instructions)));
        let r = Json::Object(es);
        proof {
            lemma_round_trip(r@, self@);
        }
        r
    }
}

} // verus!
