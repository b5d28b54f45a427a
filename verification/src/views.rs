use crate::error::{Error, ErrorView};
use vstd::prelude::*;

verus! {

/// The views of the items of a sequence, in order.
pub open spec fn views_of<T: View>(items: Seq<T>) -> Seq<T::V> {
    Seq::new(items.len(), |i: int| items[i]@)
}

/// The view of an optional item.
pub open spec fn view_of_option<T: View>(item: Option<T>) -> Option<T::V> {
    match item {
        Some(t) => Some(t@),
        None => None,
    }
}

/// The view of an outcome.
pub open spec fn view_of_result<T: View>(outcome: Result<T, Error>) -> Result<T::V, ErrorView> {
    match outcome {
        Ok(t) => Ok(t@),
        Err(e) => Err(e@),
    }
}

/// The view of an outcome that may hold nothing.
pub open spec fn view_of_optional_result<T: View>(outcome: Result<Option<T>, Error>) -> Result<
    Option<T::V>,
    ErrorView,
> {
    match outcome {
        Ok(t) => Ok(view_of_option(t)),
        Err(e) => Err(e@),
    }
}

/// The views of a sequence with one more item.
pub proof fn lemma_views_push<T: View>(items: Seq<T>, item: T)
    ensures
        views_of(items.push(item)) == views_of(items).push(item@),
{
    assert(views_of(items.push(item)) =~= views_of(items).push(item@));
}

} // verus!
