use fxhash::FxHashSet;
use vstd::prelude::*;

verus! {

/// What a set of texts holds: each text by its characters.
pub uninterp spec fn seen_texts(seen: FxHashSet<String>) -> Set<Seq<char>>;

/// Makes an empty `fxhash::FxHashSet` with `Default::default`: it holds no
/// text.
#[verifier::external_body]
pub(crate) fn seen_new() -> (seen: FxHashSet<String>)
    ensures
        seen_texts(seen) == (Set::<Seq<char>>::empty()),
{
    FxHashSet::default()
}

/// Calls `HashSet::contains` on an `fxhash::FxHashSet`: whether the set
/// holds the text whose characters are those of `text`.
#[verifier::external_body]
pub(crate) fn seen_contains(seen: &FxHashSet<String>, text: &str) -> (found: bool)
    ensures
        found == seen_texts(*seen).contains(text@),
{
    seen.contains(text)
}

/// Calls `HashSet::insert` on an `fxhash::FxHashSet`: afterwards the set
/// holds the text, and every other text as before.
#[verifier::external_body]
pub(crate) fn seen_insert(seen: &mut FxHashSet<String>, text: String)
    ensures
        seen_texts(*final(seen)) == seen_texts(*old(seen)).insert(text@),
{
    seen.insert(text);
}

} // verus!
