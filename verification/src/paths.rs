//! Canonical form for comparing Windows path strings: lowercased, forward
//! slashes unified to backslashes, leading long-path prefixes dropped. The
//! completion tracker's cross-check compares the artifact in effect on the
//! host against the expected artifact through this form.

use vstd::prelude::*;

verus! {

/// What `str::to_lowercase` returns for a given character sequence.
pub uninterp spec fn lower_of(s: Seq<char>) -> Seq<char>;

/// Relies on `str::to_lowercase`: the Unicode lowercase mapping of the
/// string, a function of its characters alone; the characters are handed
/// over in order.
#[verifier::external_body]
fn lowercase_chars(s: &str) -> (v: Vec<char>)
    ensures
        v@ == lower_of(s@),
{
    s.to_lowercase().chars().collect()
}

/// Relies on `String` as `FromIterator<char>`: collecting characters in
/// order yields the string of exactly those characters.
#[verifier::external_body]
fn chars_to_string(v: Vec<char>) -> (s: String)
    ensures
        s@ == v@,
{
    v.into_iter().collect()
}

/// The Windows long-path prefix, `\\?\`.
pub open spec fn spec_long_prefix() -> Seq<char> {
    seq!['\\', '\\', '?', '\\']
}

/// Forward slashes become backslashes; every other character stays.
pub open spec fn spec_slash_to_backslash(s: Seq<char>) -> Seq<char> {
    s.map_values(|c: char| if c == '/' { '\\' } else { c })
}

/// Every leading long-path prefix removed.
pub open spec fn spec_strip_long_prefix(s: Seq<char>) -> Seq<char>
    decreases s.len(),
{
    if s.len() >= 4 && s.subrange(0, 4) == spec_long_prefix() {
        spec_strip_long_prefix(s.subrange(4, s.len() as int))
    } else {
        s
    }
}

/// The canonical comparison form of a path string.
pub open spec fn spec_normalize_path(s: Seq<char>) -> Seq<char> {
    spec_strip_long_prefix(spec_slash_to_backslash(lower_of(s)))
}

/// Normalise a path string for case-insensitive comparison.
pub fn normalize_path(path: &str) -> (r: String)
    ensures
        r@ == spec_normalize_path(path@),
{
    let lowered = lowercase_chars(path);
    let ghost replaced = spec_slash_to_backslash(lower_of(path@));

    let mut unified: Vec<char> = Vec::new();
    let mut i: usize = 0;
    while i < lowered.len()
        invariant
            i <= lowered@.len(),
            lowered@ == lower_of(path@),
            replaced == spec_slash_to_backslash(lower_of(path@)),
            unified@ == replaced.subrange(0, i as int),
        decreases lowered@.len() - i,
    {
        let c = lowered[i];
        if c == '/' {
            unified.push('\\');
        } else {
            unified.push(c);
        }
        proof {
            assert(unified@ =~= replaced.subrange(0, i + 1));
        }
        i = i + 1;
    }
    proof {
        assert(unified@ =~= replaced);
    }

    let mut start: usize = 0;
    while unified.len() - start >= 4 && unified[start] == '\\' && unified[start + 1] == '\\'
        && unified[start + 2] == '?' && unified[start + 3] == '\\'
        invariant
            start <= unified@.len(),
            unified@ == replaced,
            spec_strip_long_prefix(replaced) == spec_strip_long_prefix(
                replaced.subrange(start as int, replaced.len() as int),
            ),
        decreases unified@.len() - start,
    {
        proof {
            let rest = replaced.subrange(start as int, replaced.len() as int);
            assert(rest.subrange(0, 4) =~= spec_long_prefix());
            assert(rest.subrange(4, rest.len() as int) =~= replaced.subrange(
                start + 4,
                replaced.len() as int,
            ));
        }
        start = start + 4;
    }
    proof {
        let rest = replaced.subrange(start as int, replaced.len() as int);
        if rest.len() >= 4 && rest.subrange(0, 4) == spec_long_prefix() {
            assert(replaced[start as int] == rest[0]);
            assert(replaced[start + 1] == rest[1]);
            assert(replaced[start + 2] == rest[2]);
            assert(replaced[start + 3] == rest[3]);
            assert(false);
        }
    }

    let mut tail: Vec<char> = Vec::new();
    let mut j: usize = start;
    while j < unified.len()
        invariant
            start <= j <= unified@.len(),
            unified@ == replaced,
            tail@ == replaced.subrange(start as int, j as int),
        decreases unified@.len() - j,
    {
        tail.push(unified[j]);
        proof {
            assert(tail@ =~= replaced.subrange(start as int, j + 1));
        }
        j = j + 1;
    }
    proof {
        assert(tail@ =~= replaced.subrange(start as int, replaced.len() as int));
    }
    chars_to_string(tail)
}

/// The tracker's cross-check: two path strings denote the same artifact
/// exactly when their canonical forms agree.
pub fn paths_match(current: &str, expected: &str) -> (r: bool)
    ensures
        r == (spec_normalize_path(current@) == spec_normalize_path(expected@)),
{
    let a = normalize_path(current);
    let b = normalize_path(expected);
    a == b
}

} // verus!
