use vstd::prelude::*;

verus! {

/// What `heck`'s snake-case conversion yields for a character sequence.
pub uninterp spec fn snake_of(s: Seq<char>) -> Seq<char>;

/// What `heck`'s upper-camel-case conversion yields for a character
/// sequence.
pub uninterp spec fn camel_of(s: Seq<char>) -> Seq<char>;

/// Relies on `heck::ToSnakeCase::to_snake_case` for `str`: the result
/// depends on the input characters alone, and an empty input stays empty.
#[verifier::external_body]
pub(crate) fn to_snake_case(s: &str) -> (r: String)
    ensures
        r@ == snake_of(s@),
        s@.len() == 0 ==> r@.len() == 0,
{
    heck::ToSnakeCase::to_snake_case(s)
}

/// Relies on `heck::ToUpperCamelCase::to_upper_camel_case` for `str`: the
/// result depends on the input characters alone, and an empty input stays
/// empty.
#[verifier::external_body]
pub(crate) fn to_upper_camel_case(s: &str) -> (r: String)
    ensures
        r@ == camel_of(s@),
        s@.len() == 0 ==> r@.len() == 0,
{
    heck::ToUpperCamelCase::to_upper_camel_case(s)
}

} // verus!
