//! The ways in which building or applying a layer can fail.

use vstd::prelude::*;

verus! {

#[verifier::external_type_specification]
#[verifier::external_body]
pub struct ExEngineError(candle_core::Error);

/// A failure of construction or of a forward pass.
#[derive(Debug)]
pub enum LoraError {
    /// The adapter configurations given for one layer do not name the same
    /// set of target modules.
    ConfigMismatch,
    /// The ranks or sizes of the tensors involved do not fit each other.
    ShapeMismatch,
    /// An adapter or layer index lies beyond its axis of the scaling tensor.
    IndexOutOfRange,
    /// A tensor that the engine is to compute with holds integers, on which
    /// its arithmetic is not total.
    ElementType,
    /// The tensor engine refused an operation whose shapes were in order.
    Engine(candle_core::Error),
}

/// What the library makes of an engine's result: a value is passed on as it
/// is, a failure is passed on as the engine's.
pub fn engine_outcome<T>(result: Result<T, candle_core::Error>) -> (r: Result<T, LoraError>)
    ensures
        result matches Ok(value) ==> r == Ok::<T, LoraError>(value),
        result matches Err(e) ==> r == Err::<T, LoraError>(LoraError::Engine(e)),
{
    match result {
        Ok(value) => Ok(value),
        Err(e) => Err(LoraError::Engine(e)),
    }
}

impl LoraError {
    /// A short description of the failure.
    pub fn message(&self) -> (r: String)
        ensures
            r@ == (match *self {
                LoraError::ConfigMismatch => "Expected all target modules to be the same."@,
                LoraError::ShapeMismatch => "Tensor shapes do not fit the layer."@,
                LoraError::IndexOutOfRange => "Index lies outside the scaling tensor."@,
                LoraError::ElementType => "Tensor does not hold floating-point numbers."@,
                LoraError::Engine(_) => "The tensor engine failed."@,
            }),
    {
        match self {
            LoraError::ConfigMismatch => "Expected all target modules to be the same.".to_string(),
            LoraError::ShapeMismatch => "Tensor shapes do not fit the layer.".to_string(),
            LoraError::IndexOutOfRange => "Index lies outside the scaling tensor.".to_string(),
            LoraError::ElementType => "Tensor does not hold floating-point numbers.".to_string(),
            LoraError::Engine(_) => "The tensor engine failed.".to_string(),
        }
    }
}

} // verus!
