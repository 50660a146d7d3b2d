//! The rules of the tuple algebra that do not depend on floating-point
//! arithmetic: when a cross product is legal, and how per-component
//! tolerance checks combine into approximate equality of two tuples.
use vstd::prelude::*;

verus! {

/// Why a cross product was refused.
#[derive(Clone, Copy, Debug, PartialEq, Eq, Structural)]
pub enum CrossError {
    /// The left operand is not classified as a vector.
    LhsNotVector,
    /// The right operand is not classified as a vector (the left one is).
    RhsNotVector,
}

/// A cross product is defined only between two vectors.
pub open spec fn cross_allowed(lhs_is_vector: bool, rhs_is_vector: bool) -> bool {
    lhs_is_vector && rhs_is_vector
}

/// Two tuples are approximately equal when every one of the four
/// component pairs lies within the tolerance: all of them, not any.
pub open spec fn all_close(x_close: bool, y_close: bool, z_close: bool, w_close: bool) -> bool {
    x_close && y_close && z_close && w_close
}

/// Decides whether a cross product may be taken, given whether each operand
/// is classified as a vector. The left operand is reported first.
pub fn check_cross_operands(lhs_is_vector: bool, rhs_is_vector: bool) -> (r: Result<(), CrossError>)
    ensures
        r is Ok <==> cross_allowed(lhs_is_vector, rhs_is_vector),
        r == Err::<(), CrossError>(CrossError::LhsNotVector) <==> !lhs_is_vector,
        r == Err::<(), CrossError>(CrossError::RhsNotVector) <==> lhs_is_vector && !rhs_is_vector,
{
    if !lhs_is_vector {
        Err(CrossError::LhsNotVector)
    } else if !rhs_is_vector {
        Err(CrossError::RhsNotVector)
    } else {
        Ok(())
    }
}

/// Combines the four per-component tolerance checks of two tuples into the
/// verdict of approximate equality.
pub fn components_all_close(x_close: bool, y_close: bool, z_close: bool, w_close: bool) -> (r: bool)
    ensures
        r == all_close(x_close, y_close, z_close, w_close),
{
    x_close && y_close && z_close && w_close
}

} // verus!
