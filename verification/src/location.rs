//! Normalization of the storage locations that a catalog hands out.
//!
//! A location is a URI. Two things are done to it, in this order: an `s3a`
//! scheme becomes `s3`, and a trailing placeholder marker is removed.

use vstd::prelude::*;

verus! {

/// The marker that Spark appends to a location which is not final yet.
pub const PLACEHOLDER_SUFFIX: &'static str = "-__PLACEHOLDER__";

/// What a location begins with when its scheme is `s3a`: the scheme and the
/// colon that ends it.
pub const S3A_SCHEME: &'static str = "s3a:";

/// The scheme that replaces `s3a`, with its colon.
pub const S3_SCHEME: &'static str = "s3:";

/// The placeholder marker, as characters.
pub open spec fn placeholder_suffix() -> Seq<char> {
    PLACEHOLDER_SUFFIX@
}

/// The `s3a` scheme with its colon, as characters.
pub open spec fn s3a_scheme() -> Seq<char> {
    S3A_SCHEME@
}

/// The `s3` scheme with its colon, as characters.
pub open spec fn s3_scheme() -> Seq<char> {
    S3_SCHEME@
}

/// Whether the scheme of `location` is `s3a`.
pub open spec fn has_s3a_scheme(location: Seq<char>) -> bool {
    s3a_scheme().is_prefix_of(location)
}

/// `location` with an `s3a` scheme replaced by `s3`; what follows the scheme
/// is kept as it is, and a location of another scheme is returned unchanged.
pub open spec fn rewrite_scheme(location: Seq<char>) -> Seq<char> {
    if has_s3a_scheme(location) {
        s3_scheme() + location.skip(s3a_scheme().len() as int)
    } else {
        location
    }
}

/// Whether `location` ends with the placeholder marker.
pub open spec fn has_placeholder_suffix(location: Seq<char>) -> bool {
    placeholder_suffix().is_suffix_of(location)
}

/// `location` without a trailing placeholder marker. At most one marker is
/// removed.
pub open spec fn strip_placeholder(location: Seq<char>) -> Seq<char> {
    if has_placeholder_suffix(location) {
        location.take(location.len() - placeholder_suffix().len())
    } else {
        location
    }
}

/// The location that is handed to the caller: the scheme is rewritten first,
/// then the placeholder marker is removed from the result.
pub open spec fn normalize_location(location: Seq<char>) -> Seq<char> {
    strip_placeholder(rewrite_scheme(location))
}

/// The lengths and characters of the three literals above.
pub proof fn lemma_literals()
    ensures
        placeholder_suffix().len() == 16,
        placeholder_suffix()[0] == '-',
        s3a_scheme() =~= seq!['s', '3', 'a', ':'],
        s3_scheme() =~= seq!['s', '3', ':'],
{
    reveal_strlit("-__PLACEHOLDER__");
    reveal_strlit("s3a:");
    reveal_strlit("s3:");
}

/// Rewriting the scheme neither adds nor removes a placeholder marker: the
/// rewritten location ends with the marker exactly when the location does.
pub proof fn lemma_rewrite_keeps_placeholder(location: Seq<char>)
    ensures
        has_placeholder_suffix(rewrite_scheme(location)) == has_placeholder_suffix(location),
{
    lemma_literals();
    let suffix = placeholder_suffix();
    let rewritten = rewrite_scheme(location);
    if has_s3a_scheme(location) {
        assert(location[0] == 's' && location[1] == '3' && location[2] == 'a' && location[3]
            == ':') by {
            let head = location.subrange(0, 4);
            assert(head[0] == 's' && head[1] == '3' && head[2] == 'a' && head[3] == ':');
        }
        assert(rewritten.len() == location.len() - 1);
        assert(rewritten[0] == 's' && rewritten[1] == '3' && rewritten[2] == ':');
        assert(forall|i: int| 3 <= i < rewritten.len() ==> rewritten[i] == location[i + 1]);
        if has_placeholder_suffix(location) {
            let start = location.len() - 16;
            let tail = location.subrange(start, location.len() as int);
            assert(tail[0] == '-');
            // The marker begins with a character that the scheme does not hold.
            assert(start >= 4);
            assert(suffix =~= rewritten.subrange(rewritten.len() - 16, rewritten.len() as int))
                by {
                assert forall|i: int| 0 <= i < 16 implies suffix[i] == rewritten.subrange(
                    rewritten.len() - 16,
                    rewritten.len() as int,
                )[i] by {
                    assert(suffix[i] == tail[i]);
                }
            }
        }
        if has_placeholder_suffix(rewritten) {
            let start = rewritten.len() - 16;
            let tail = rewritten.subrange(start, rewritten.len() as int);
            assert(tail[0] == '-');
            assert(start >= 3);
            assert(suffix =~= location.subrange(location.len() - 16, location.len() as int))
                by {
                assert forall|i: int| 0 <= i < 16 implies suffix[i] == location.subrange(
                    location.len() - 16,
                    location.len() as int,
                )[i] by {
                    assert(suffix[i] == tail[i]);
                }
            }
        }
    }
}

/// A location that ends with the placeholder marker loses exactly that marker:
/// putting the marker back behind the normalized location gives the location
/// with its scheme rewritten, which is the location itself unless its scheme
/// is `s3a`.
pub proof fn lemma_placeholder_removed(location: Seq<char>)
    requires
        has_placeholder_suffix(location),
    ensures
        normalize_location(location) + placeholder_suffix() == rewrite_scheme(location),
        !has_s3a_scheme(location) ==> normalize_location(location) + placeholder_suffix()
            == location,
{
    lemma_rewrite_keeps_placeholder(location);
    let rewritten = rewrite_scheme(location);
    let suffix = placeholder_suffix();
    assert(rewritten.take(rewritten.len() - suffix.len()) + suffix =~= rewritten);
}

/// A location of scheme `s3a` that does not end with the placeholder marker
/// has only its scheme rewritten: what follows the scheme is kept.
pub proof fn lemma_only_scheme_rewritten(location: Seq<char>)
    requires
        has_s3a_scheme(location),
        !has_placeholder_suffix(location),
    ensures
        normalize_location(location) == s3_scheme() + location.skip(s3a_scheme().len() as int),
{
    lemma_rewrite_keeps_placeholder(location);
}

/// A location of another scheme that does not end with the placeholder marker
/// is handed out as it is.
pub proof fn lemma_plain_location_unchanged(location: Seq<char>)
    requires
        !has_s3a_scheme(location),
        !has_placeholder_suffix(location),
    ensures
        normalize_location(location) == location,
{
}

/// Whether `text` ends with `suffix`.
pub fn ends_with(text: &str, suffix: &str) -> (found: bool)
    ensures
        found == suffix@.is_suffix_of(text@),
{
    let n = text.unicode_len();
    let m = suffix.unicode_len();
    if n < m {
        return false;
    }
    let tail = text.substring_char(n - m, n);
    tail.to_owned() == suffix.to_owned()
}

/// Whether `text` begins with `prefix`.
pub fn starts_with(text: &str, prefix: &str) -> (found: bool)
    ensures
        found == prefix@.is_prefix_of(text@),
{
    let n = text.unicode_len();
    let m = prefix.unicode_len();
    if n < m {
        return false;
    }
    let head = text.substring_char(0, m);
    head.to_owned() == prefix.to_owned()
}

/// Replaces an `s3a` scheme by `s3`.
pub fn rewrite_s3a_scheme(location: &str) -> (rewritten: String)
    ensures
        rewritten@ == rewrite_scheme(location@),
{
    if starts_with(location, S3A_SCHEME) {
        let n = location.unicode_len();
        let scheme_len = S3A_SCHEME.unicode_len();
        let rest = location.substring_char(scheme_len, n);
        S3_SCHEME.to_owned().concat(rest)
    } else {
        location.to_owned()
    }
}

/// Removes a trailing placeholder marker.
pub fn strip_placeholder_suffix(location: &str) -> (stripped: String)
    ensures
        stripped@ == strip_placeholder(location@),
{
    if ends_with(location, PLACEHOLDER_SUFFIX) {
        let n = location.unicode_len();
        let m = PLACEHOLDER_SUFFIX.unicode_len();
        location.substring_char(0, n - m).to_owned()
    } else {
        location.to_owned()
    }
}

/// Normalizes a location as it came from the catalog.
pub fn normalize_storage_location(location: &str) -> (normalized: String)
    ensures
        normalized@ == normalize_location(location@),
{
    let rewritten = rewrite_s3a_scheme(location);
    strip_placeholder_suffix(rewritten.as_str())
}

} // verus!
