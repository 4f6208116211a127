use vstd::prelude::*;
use crate::text::{after, before, find_char};

verus! {

/// The repository of an image reference `repository[:tag][@digest]`: what precedes the
/// first `:` once the digest is cut off.
pub open spec fn repository_of(image: Seq<char>) -> Seq<char> {
    before(before(image, '@'), ':')
}

/// The tag of an image reference `repository[:tag][@digest]`: what follows the first `:`
/// up to the next `:`, once the digest is cut off; empty when there is no tag.
pub open spec fn tag_of(image: Seq<char>) -> Seq<char> {
    before(after(before(image, '@'), ':'), ':')
}

/// The reference `repository:tag`.
pub open spec fn reference(repository: Seq<char>, tag: Seq<char>) -> Seq<char> {
    repository + seq![':'] + tag
}

/// Cuts `s` at the first `c`: the part before it.
fn text_before(s: &str, c: char) -> (r: &str)
    ensures
        r@ == before(s@, c),
{
    let i = find_char(s, c);
    s.substring_char(0, i)
}

/// Cuts `s` at the first `c`: the part after it.
fn text_after(s: &str, c: char) -> (r: &str)
    ensures
        r@ == after(s@, c),
{
    let i = find_char(s, c);
    let n = s.unicode_len();
    if i < n {
        s.substring_char(i + 1, n)
    } else {
        let e = s.substring_char(n, n);
        assert(e@ =~= Seq::<char>::empty());
        e
    }
}

/// Splits an image reference into its repository and its tag, dropping any digest.
/// A reference without a tag gives the empty tag.
pub fn parse_image(image: &str) -> (r: (String, String))
    ensures
        r.0@ == repository_of(image@),
        r.1@ == tag_of(image@),
{
    let undigested = text_before(image, '@');
    let repository = text_before(undigested, ':');
    let tag = text_before(text_after(undigested, ':'), ':');
    (repository.to_owned(), tag.to_owned())
}

/// Builds the reference `repository:tag`; no digest is ever written.
pub fn image_reference(repository: &str, tag: &str) -> (r: String)
    ensures
        r@ == reference(repository@, tag@),
{
    let mut r = repository.to_owned();
    r.append(":");
    r.append(tag);
    proof {
        reveal_strlit(":");
    }
    r
}

} // verus!
