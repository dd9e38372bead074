//! The denylist: a purely lexical screen that runs before any
//! compilation is attempted.
use vstd::prelude::*;

verus! {

/// `p` appears in `s` as a contiguous run of characters.
pub open spec fn occurs_in(s: Seq<char>, p: Seq<char>) -> bool {
    exists|i: int| 0 <= i && i + p.len() <= s.len() && #[trigger] s.subrange(i, i + p.len()) == p
}

/// Relies on `str::contains` with a `&str` pattern: true iff the pattern
/// matches a sub-slice of the string.
#[verifier::external_body]
pub(crate) fn str_contains(s: &str, p: &str) -> (r: bool)
    ensures
        r == occurs_in(s@, p@),
{
    s.contains(p)
}

/// The substrings that mark a snippet as dangerous: filesystem, process,
/// network, environment and thread access, raw memory, file inclusion and
/// foreign calls.
pub open spec fn denied_patterns() -> Seq<Seq<char>> {
    seq![
        "std::process"@,
        "std::fs"@,
        "std::net"@,
        "unsafe"@,
        "include!"@,
        "include_str!"@,
        "include_bytes!"@,
        "std::thread::spawn"@,
        "std::env"@,
        "libc::"@,
    ]
}

/// The snippet holds one of the denied substrings verbatim.
pub open spec fn is_denied(code: Seq<char>) -> bool {
    exists|k: int| 0 <= k < denied_patterns().len() && occurs_in(code, #[trigger] denied_patterns()[k])
}

pub const DENIED_PATTERN_COUNT: usize = 10;

/// The `k`-th denied substring.
pub fn denied_pattern(k: usize) -> (r: &'static str)
    requires
        k < DENIED_PATTERN_COUNT,
    ensures
        r@ == denied_patterns()[k as int],
{
    match k {
        0 => "std::process",
        1 => "std::fs",
        2 => "std::net",
        3 => "unsafe",
        4 => "include!",
        5 => "include_str!",
        6 => "include_bytes!",
        7 => "std::thread::spawn",
        8 => "std::env",
        _ => "libc::",
    }
}

/// Whether the snippet may be compiled: true exactly when none of the denied
/// substrings occurs in it, wherever it stands (a comment or a string
/// literal counts as much as code).
pub fn is_safe_code(code: &str) -> (r: bool)
    ensures
        r == !is_denied(code@),
{
    assert(denied_patterns().len() == DENIED_PATTERN_COUNT);
    let mut k: usize = 0;
    while k < DENIED_PATTERN_COUNT
        invariant
            k <= DENIED_PATTERN_COUNT,
            denied_patterns().len() == DENIED_PATTERN_COUNT,
            forall|j: int| 0 <= j < k ==> !occurs_in(code@, #[trigger] denied_patterns()[j]),
        decreases DENIED_PATTERN_COUNT - k,
    {
        let p = denied_pattern(k);
        if str_contains(code, p) {
            return false;
        }
        k = k + 1;
    }
    true
}

/// Characters `a` then `b` stand next to each other somewhere in `s`.
pub open spec fn has_pair(s: Seq<char>, a: char, b: char) -> bool {
    exists|i: int| 0 <= i && i + 1 < s.len() && #[trigger] s[i] == a && s[i + 1] == b
}

/// A pattern does not occur in a text that lacks two of its neighbouring
/// characters as neighbours.
proof fn lemma_absent_pair(s: Seq<char>, p: Seq<char>, k: int)
    requires
        0 <= k && k + 1 < p.len(),
        !has_pair(s, p[k], p[k + 1]),
    ensures
        !occurs_in(s, p),
{
    if occurs_in(s, p) {
        let i = choose|i: int| 0 <= i && i + p.len() <= s.len() && #[trigger] s.subrange(i, i + p.len()) == p;
        assert(s.subrange(i, i + p.len())[k] == p[k]);
        assert(s.subrange(i, i + p.len())[k + 1] == p[k + 1]);
        assert(s[i + k] == p[k] && s[i + k + 1] == p[k + 1]);
    }
}

/// Each denied substring holds "st", "un", "nc" or "bc", so a text with
/// none of those pairs passes the denylist.
pub proof fn lemma_passes_without_pairs(s: Seq<char>)
    requires
        !has_pair(s, 's', 't'),
        !has_pair(s, 'u', 'n'),
        !has_pair(s, 'n', 'c'),
        !has_pair(s, 'b', 'c'),
    ensures
        !is_denied(s),
{
    reveal_strlit("std::process");
    reveal_strlit("std::fs");
    reveal_strlit("std::net");
    reveal_strlit("unsafe");
    reveal_strlit("include!");
    reveal_strlit("include_str!");
    reveal_strlit("include_bytes!");
    reveal_strlit("std::thread::spawn");
    reveal_strlit("std::env");
    reveal_strlit("libc::");
    let d = denied_patterns();
    lemma_absent_pair(s, d[0], 0);
    lemma_absent_pair(s, d[1], 0);
    lemma_absent_pair(s, d[2], 0);
    lemma_absent_pair(s, d[3], 0);
    lemma_absent_pair(s, d[4], 1);
    lemma_absent_pair(s, d[5], 1);
    lemma_absent_pair(s, d[6], 1);
    lemma_absent_pair(s, d[7], 0);
    lemma_absent_pair(s, d[8], 0);
    lemma_absent_pair(s, d[9], 2);
}

} // verus!
