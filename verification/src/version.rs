//! Comparison of dotted version strings such as `1.2.5`.
use vstd::prelude::*;

use crate::text::{parse_u32, spec_parse_u32, spec_split, spec_split_once, split_char, split_once, views};

verus! {

/// The number that one dot-separated part of a version's numbers stands
/// for: its decimal value, or 0 where it is not a valid `u32`.
pub open spec fn part_number(part: Seq<char>) -> int {
    match spec_parse_u32(part) {
        Some(v) => v as int,
        None => 0,
    }
}

/// A version without its build metadata (from the first `+` on), which
/// semantic versioning leaves out of precedence.
pub open spec fn without_build(s: Seq<char>) -> Seq<char> {
    spec_split_once(s, '+').0
}

/// The numbers of a version: what comes before its pre-release label (from
/// the first `-` on), build metadata left out.
pub open spec fn version_numbers(s: Seq<char>) -> Seq<char> {
    spec_split_once(without_build(s), '-').0
}

/// Whether a version carries a pre-release label, such as `-beta.1`.
pub open spec fn has_prerelease(s: Seq<char>) -> bool {
    spec_split_once(without_build(s), '-').1 is Some
}

/// Component `i` of version `s`: the number of the `i`-th dot-separated
/// part of its numbers, or 0 where there are fewer parts.
pub open spec fn version_component(s: Seq<char>, i: int) -> int {
    let parts = spec_split(version_numbers(s), '.');
    if i < parts.len() {
        part_number(parts[i])
    } else {
        0
    }
}

/// The major, minor and patch numbers that a version is compared by;
/// further parts do not count.
pub open spec fn version_key(s: Seq<char>) -> (int, int, int) {
    (version_component(s, 0), version_component(s, 1), version_component(s, 2))
}

/// Lexicographic `>` on (major, minor, patch).
pub open spec fn key_gt(a: (int, int, int), b: (int, int, int)) -> bool {
    ||| a.0 > b.0
    ||| (a.0 == b.0 && a.1 > b.1)
    ||| (a.0 == b.0 && a.1 == b.1 && a.2 > b.2)
}

/// Version `a` is at least version `b`, by semantic-version precedence:
/// the greater major, minor and patch numbers win; where they are equal, a
/// pre-release (`1.2.4-beta`) is below the release (`1.2.4`), and two
/// pre-releases of the same numbers count as equal.
pub open spec fn version_gte(a: Seq<char>, b: Seq<char>) -> bool {
    ||| key_gt(version_key(a), version_key(b))
    ||| (version_key(a) == version_key(b) && (!has_prerelease(a) || has_prerelease(b)))
}

fn component(parts: &Vec<&str>, i: usize, ghost_s: Ghost<Seq<char>>) -> (r: u32)
    requires
        views(parts@) == spec_split(version_numbers(ghost_s@), '.'),
    ensures
        r as int == version_component(ghost_s@, i as int),
{
    if i < parts.len() {
        assert(views(parts@)[i as int] == parts@[i as int]@);
        match parse_u32(parts[i]) {
            Some(v) => v,
            None => 0,
        }
    } else {
        0
    }
}

fn key_of(s: &str) -> (r: ((u32, u32, u32), bool))
    ensures
        (r.0.0 as int, r.0.1 as int, r.0.2 as int) == version_key(s@),
        r.1 == has_prerelease(s@),
{
    let (main, _build) = split_once(s, '+');
    let (numbers, label) = split_once(main, '-');
    let parts = split_char(numbers, '.');
    let a = component(&parts, 0, Ghost(s@));
    let b = component(&parts, 1, Ghost(s@));
    let c = component(&parts, 2, Ghost(s@));
    ((a, b, c), label.is_some())
}

/// Whether version `a` is at least version `b`, by semantic-version
/// precedence on the numbers and the presence of a pre-release label:
/// `1.2.4-beta.1` is at least `1.2.3`, and `1.2.4-beta` is below `1.2.4`.
pub fn is_version_gte(a: &str, b: &str) -> (r: bool)
    ensures
        r == version_gte(a@, b@),
{
    let (va, pa) = key_of(a);
    let (vb, pb) = key_of(b);
    if va.0 != vb.0 {
        return va.0 > vb.0;
    }
    if va.1 != vb.1 {
        return va.1 > vb.1;
    }
    if va.2 != vb.2 {
        return va.2 > vb.2;
    }
    !pa || pb
}

/// Every version is at least itself.
pub proof fn lemma_version_gte_reflexive(a: Seq<char>)
    ensures
        version_gte(a, a),
{
}

/// Of any two versions, one is at least the other.
pub proof fn lemma_version_gte_total(a: Seq<char>, b: Seq<char>)
    ensures
        version_gte(a, b) || version_gte(b, a),
{
}

/// If `a` is at least `b` and `b` at least `c`, then `a` is at least `c`.
pub proof fn lemma_version_gte_transitive(a: Seq<char>, b: Seq<char>, c: Seq<char>)
    requires
        version_gte(a, b),
        version_gte(b, c),
    ensures
        version_gte(a, c),
{
}

/// Two versions are each at least the other exactly when their major, minor
/// and patch numbers agree and either both or neither carry a pre-release
/// label.
pub proof fn lemma_version_gte_both_ways(a: Seq<char>, b: Seq<char>)
    ensures
        (version_gte(a, b) && version_gte(b, a)) <==> (version_key(a) == version_key(b)
            && has_prerelease(a) == has_prerelease(b)),
{
}

} // verus!
