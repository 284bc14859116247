//! Slugs: the URL-friendly form of a title, made by the `slug` crate.
use vstd::prelude::*;

verus! {

/// What `slug::slugify` makes of a text.
pub uninterp spec fn slugify_result(text: Seq<char>) -> Seq<char>;

/// A character that may stand in a slug: a-z, 0-9 or '-'.
pub open spec fn is_slug_char(c: char) -> bool {
    ('a' <= c && c <= 'z') || ('0' <= c && c <= '9') || c == '-'
}

/// The shape that every slug has: only slug characters, never two '-' in a
/// row, and no '-' at either end.
pub open spec fn is_slug(s: Seq<char>) -> bool {
    &&& forall|i: int| 0 <= i < s.len() ==> is_slug_char(#[trigger] s[i])
    &&& forall|i: int| 0 <= i < s.len() - 1 ==> !(#[trigger] s[i] == '-' && s[i + 1] == '-')
    &&& s.len() > 0 ==> s[0] != '-' && s[s.len() - 1] != '-'
}

/// `slug::slugify`. Claimed: the result is `slugify_result` of the text, and
/// it has the shape the crate's documentation promises (a-z, 0-9 and '-',
/// no "--", no '-' at either end).
#[verifier::external_body]
pub(crate) fn slugify(text: &str) -> (slug: String)
    ensures
        slug@ == slugify_result(text@),
        is_slug(slug@),
{
    slug::slugify(text)
}

} // verus!
