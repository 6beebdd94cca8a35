//! Calls into other crates and into parts of std that vstd leaves unspecified.
use vstd::prelude::*;

verus! {

/// A parsed URL from the `url` crate, carried through the domain unread.
#[verifier::external_type_specification]
#[verifier::external_body]
pub struct ExUrl(url::Url);

/// A filesystem path from std, carried through the domain unread.
#[verifier::external_type_specification]
#[verifier::external_body]
pub struct ExPathBuf(std::path::PathBuf);

/// The Crockford base32 digit with value `d` (below 32).
pub open spec fn crockford_digit(d: u128) -> char {
    seq![
        '0', '1', '2', '3', '4', '5', '6', '7', '8', '9', 'A', 'B', 'C', 'D', 'E', 'F',
        'G', 'H', 'J', 'K', 'M', 'N', 'P', 'Q', 'R', 'S', 'T', 'V', 'W', 'X', 'Y', 'Z',
    ][d as int]
}

/// The 26-character Crockford base32 text of the ULID with value `id`: the
/// character at index `i` is the digit of the 5-bit group that lies
/// `25 - i` groups above the lowest, so the highest bits come first.
pub open spec fn ulid_text(id: u128) -> Seq<char> {
    Seq::new(26, |i: int| crockford_digit((id >> ((5 * (25 - i)) as u128)) & 31u128))
}

/// Calls `ulid::Ulid::new()`, which draws a fresh identifier from the clock
/// and a random source, and hands back its 128-bit value. Nothing is claimed
/// of the value.
#[verifier::external_body]
pub(crate) fn new_ulid() -> (r: u128) {
    ulid::Ulid::new().0
}

/// Calls `ulid::Ulid::to_string` on the ULID with value `id`, which writes
/// the 26 base32 digits of `id`, highest bits first (`ulid_text`).
#[verifier::external_body]
pub(crate) fn ulid_to_string(id: u128) -> (r: String)
    ensures
        r@ == ulid_text(id),
        r@.len() == 26,
{
    ulid::Ulid(id).to_string()
}

/// Calls the derived `Clone` of `url::Url`, which copies every field, so the
/// copy equals the original.
#[verifier::external_body]
pub(crate) fn clone_url(u: &url::Url) -> (r: url::Url)
    ensures
        r == *u,
{
    u.clone()
}

/// Calls the `Clone` of `std::path::PathBuf`, which copies the underlying
/// buffer, so the copy equals the original.
#[verifier::external_body]
pub(crate) fn clone_path(p: &std::path::PathBuf) -> (r: std::path::PathBuf)
    ensures
        r == *p,
{
    p.clone()
}

/// The parent that `std::path::Path::parent` gives for the path `p`: the path
/// without its last component, or `None` for a path that ends in a root or a
/// prefix and for the empty path. It depends on the path alone.
pub uninterp spec fn path_parent_of(p: std::path::PathBuf) -> Option<std::path::PathBuf>;

/// Calls `std::path::Path::parent` and copies the result into an owned path.
/// The result is a function of the path alone, named `path_parent_of`; which
/// path it is, is not spelled out here.
#[verifier::external_body]
pub(crate) fn path_parent(p: &std::path::PathBuf) -> (r: Option<std::path::PathBuf>)
    ensures
        r == path_parent_of(*p),
{
    p.parent().map(|q| q.to_path_buf())
}

/// Copies an optional URL.
pub(crate) fn clone_opt_url(u: &Option<url::Url>) -> (r: Option<url::Url>)
    ensures
        r == *u,
{
    match u {
        Some(v) => Some(clone_url(v)),
        None => None,
    }
}

/// The text of an optional string.
pub open spec fn opt_text(s: Option<String>) -> Option<Seq<char>> {
    match s {
        Some(v) => Some(v@),
        None => None,
    }
}

/// Copies an optional string.
pub(crate) fn clone_opt_string(s: &Option<String>) -> (r: Option<String>)
    ensures
        r == *s,
{
    match s {
        Some(v) => Some(v.clone()),
        None => None,
    }
}

/// Copies a list of identifiers.
pub(crate) fn clone_ids(v: &Vec<u128>) -> (r: Vec<u128>)
    ensures
        r@ == v@,
{
    let mut out: Vec<u128> = Vec::new();
    let mut i: usize = 0;
    while i < v.len()
        invariant
            i <= v.len(),
            out@ == v@.take(i as int),
        decreases v.len() - i,
    {
        out.push(v[i]);
        proof {
            assert(v@.take(i + 1) =~= v@.take(i as int).push(v@[i as int]));
        }
        i = i + 1;
    }
    proof {
        assert(v@.take(v.len() as int) =~= v@);
    }
    out
}

} // verus!
