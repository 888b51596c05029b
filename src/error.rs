//! The loader's error kinds.
use vstd::prelude::*;

verus! {

#[verifier::external_type_specification]
#[verifier::external_body]
pub struct ExIoError(std::io::Error);

/// Why a document could not be bound onto a recipe.
#[derive(Debug)]
pub enum JsonFailure {
    /// The bytes are no JSON text.
    Syntax(serde_json::Error),
    /// The JSON value does not have the recipe's shape: a required member is
    /// missing, a member has the wrong type, or an identifier is no UUID.
    Shape,
}

/// A failed load. Neither kind carries partial data.
#[derive(Debug)]
pub enum RecipeError {
    /// The file could not be opened or read.
    IoError(std::io::Error),
    /// The contents could not be decoded or bound.
    JsonError(JsonFailure),
}

pub type RecipeResult<T> = Result<T, RecipeError>;

} // verus!
