use vstd::prelude::*;

verus! {

/// The lower-case form of a text, by Unicode's case mapping.
pub uninterp spec fn lower_of(s: Seq<char>) -> Seq<char>;

/// Relies on `str::to_lowercase`: its result depends on the characters alone.
#[verifier::external_body]
pub(crate) fn lowercase(s: &str) -> (r: String)
    ensures
        r@ == lower_of(s@),
{
    s.to_lowercase()
}

/// Whether two names, given in lower-case form, name the same player.
pub fn same_folded_name(a: &String, b: &String) -> (r: bool)
    ensures
        r == (a@ == b@),
{
    a.eq(b)
}

/// Whether two names are equal regardless of case.
pub fn same_name(a: &String, b: &String) -> (r: bool)
    ensures
        r == (lower_of(a@) == lower_of(b@)),
{
    let la = lowercase(a.as_str());
    let lb = lowercase(b.as_str());
    same_folded_name(&la, &lb)
}

} // verus!
