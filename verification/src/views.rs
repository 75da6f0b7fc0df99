//! Views of the standard containers, element by element.
use vstd::prelude::*;

verus! {

/// The view of what an option holds.
pub open spec fn opt_view<T: View>(value: Option<T>) -> Option<T::V> {
    match value {
        Some(inner) => Some(inner@),
        None => None,
    }
}

/// The views of the elements of a sequence, in order.
pub open spec fn seq_view<T: View>(items: Seq<T>) -> Seq<T::V> {
    items.map_values(|item: T| item@)
}

/// The views of the two sides of a result.
pub open spec fn result_view<T: View, E: View>(value: Result<T, E>) -> Result<T::V, E::V> {
    match value {
        Ok(inner) => Ok(inner@),
        Err(error) => Err(error@),
    }
}

/// The view of a result whose success is a list, element by element.
pub open spec fn list_result_view<T: View, E: View>(value: Result<Vec<T>, E>) -> Result<
    Seq<T::V>,
    E::V,
> {
    match value {
        Ok(items) => Ok(seq_view(items@)),
        Err(error) => Err(error@),
    }
}

} // verus!
