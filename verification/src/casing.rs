use heck::ToLowerCamelCase;
use vstd::prelude::*;

verus! {

/// The lower camel case form of an identifier, as `heck` computes it.
pub uninterp spec fn lower_camel_case(name: Seq<char>) -> Seq<char>;

/// Calls `heck::ToLowerCamelCase::to_lower_camel_case` on `name`. The result is
/// taken to depend on the characters of `name` alone; nothing else is claimed
/// of it.
#[verifier::external_body]
pub(crate) fn to_lower_camel(name: &str) -> (renamed: String)
    ensures
        renamed@ == lower_camel_case(name@),
{
    name.to_lower_camel_case()
}

} // verus!
