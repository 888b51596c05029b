//! A recipe data model and a loader that binds a parsed JSON document onto it.
//!
//! `json` holds the document model and the text decoder, `ids` the identifier
//! format, `recipe` the entities with the structural binding and its inverse,
//! `error` the failure kinds, and `laws` what holds of binding and encoding
//! together.

pub mod error;
pub mod ids;
pub mod json;
pub mod laws;
pub mod recipe;

pub use error::{JsonFailure, RecipeError, RecipeResult};
pub use json::{Json, JsonView};
pub use recipe::{Recipe, RecipeIngredient, RecipeInstruction, Tag};
