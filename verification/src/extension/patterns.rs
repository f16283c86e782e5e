//! The fixed address patterns of the dispatcher. An address routes to a
//! lookup table when it matches that table's pattern: a parameter path with
//! single-character wildcards, compared position by position.

use crate::text::matches_at;
use vstd::prelude::*;

verus! {

broadcast use vstd::seq::group_seq_axioms;

/// The address starts with `/param/`, one character (not a line break),
/// `/filter/`, one character (not a line break), then `/type`.
pub open spec fn spec_filter_type_addr(s: Seq<char>) -> bool {
    &&& s.len() >= 22
    &&& s.subrange(0, 7) == "/param/"@
    &&& s[7] != '\n'
    &&& s.subrange(8, 16) == "/filter/"@
    &&& s[16] != '\n'
    &&& s.subrange(17, 22) == "/type"@
}

/// Whether the address routes to the filter-type table.
pub fn is_filter_type_addr(addr: &str) -> (r: bool)
    ensures
        r == spec_filter_type_addr(addr@),
{
    proof {
        reveal_strlit("/param/");
        reveal_strlit("/filter/");
        reveal_strlit("/type");
    }
    let n = addr.unicode_len();
    if n < 22 {
        return false;
    }
    matches_at(addr, "/param/", 0) && addr.get_char(7) != '\n' && matches_at(addr, "/filter/", 8)
        && addr.get_char(16) != '\n' && matches_at(addr, "/type", 17)
}

/// The effect-type pattern matches at position `k`: the address starts with
/// `/param/fx/`, an arbitrary run without line breaks up to `k`, then `/`,
/// one character (not a line break), then `/type`.
pub open spec fn fx_match_at(s: Seq<char>, k: int) -> bool {
    &&& 10 <= k
    &&& k + 7 <= s.len()
    &&& s.subrange(0, 10) == "/param/fx/"@
    &&& (forall|j: int| 10 <= j < k ==> s[j] != '\n')
    &&& s[k] == '/'
    &&& s[k + 1] != '\n'
    &&& s.subrange(k + 2, k + 7) == "/type"@
}

/// The address matches the effect-type pattern somewhere.
pub open spec fn spec_fx_type_addr(s: Seq<char>) -> bool {
    exists|k: int| fx_match_at(s, k)
}

/// Whether the address routes to the effect-type table.
pub fn is_fx_type_addr(addr: &str) -> (r: bool)
    ensures
        r == spec_fx_type_addr(addr@),
{
    proof {
        reveal_strlit("/param/fx/");
        reveal_strlit("/type");
    }
    let n = addr.unicode_len();
    if n < 17 {
        assert(forall|k: int| !fx_match_at(addr@, k));
        return false;
    }
    if !matches_at(addr, "/param/fx/", 0) {
        assert(forall|k: int| !fx_match_at(addr@, k));
        return false;
    }
    let mut k: usize = 10;
    while k <= n - 7
        invariant
            n == addr@.len(),
            17 <= n,
            10 <= k,
            addr@.subrange(0, 10) == "/param/fx/"@,
            "/param/fx/"@.len() == 10,
            "/type"@.len() == 5,
            forall|j: int| 10 <= j < k ==> addr@[j] != '\n',
            forall|q: int| q < k ==> !fx_match_at(addr@, q),
        decreases n - k,
    {
        if addr.get_char(k) == '/' && addr.get_char(k + 1) != '\n' && matches_at(
            addr,
            "/type",
            k + 2,
        ) {
            assert(fx_match_at(addr@, k as int));
            return true;
        }
        if addr.get_char(k) == '\n' {
            assert forall|q: int| !fx_match_at(addr@, q) by {
                if q > k {
                    assert(!fx_match_at(addr@, q));
                }
            }
            return false;
        }
        k += 1;
    }
    assert forall|q: int| !fx_match_at(addr@, q) by {
        if q >= k {
            assert(q + 7 > n);
        }
    }
    false
}

} // verus!
