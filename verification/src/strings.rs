//! Character-level string helpers.
//!
//! Key names and layer names are short identifiers, so the quadratic cost of
//! per-character access is irrelevant; in exchange every comparison is fully
//! specified over the character sequences of its arguments.

use vstd::prelude::*;
use vstd::string::StrSliceExecFns;
use vstd::string::StringExecFns;

verus! {

/// Character-for-character equality of two string slices.
pub fn str_eq(a: &str, b: &str) -> (r: bool)
    ensures
        r == (a@ == b@),
{
    let alen = a.unicode_len();
    let blen = b.unicode_len();
    if alen != blen {
        assert(a@ != b@) by {
            assert(a@.len() != b@.len());
        }
        return false;
    }
    let mut i: usize = 0;
    while i < alen
        invariant
            alen == a@.len(),
            blen == b@.len(),
            alen == blen,
            i <= alen,
            forall|j: int| 0 <= j < i ==> a@[j] == b@[j],
        decreases alen - i,
    {
        if a.get_char(i) != b.get_char(i) {
            assert(a@[i as int] != b@[i as int]);
            return false;
        }
        i = i + 1;
    }
    assert(a@ =~= b@);
    true
}

/// True when `s` begins with the characters `K`, `C`, `_`.
pub open spec fn spec_has_kc_prefix(s: Seq<char>) -> bool {
    s.len() >= 3 && s[0] == 'K' && s[1] == 'C' && s[2] == '_'
}

/// A key name with the `KC_` prefix supplied when it was written without it.
pub open spec fn spec_canonical_key_name(s: Seq<char>) -> Seq<char> {
    if spec_has_kc_prefix(s) {
        s
    } else {
        "KC_"@ + s
    }
}

/// Prefixes `KC_` onto a bare key name; names already prefixed pass through.
pub fn canonical_key_name(s: &str) -> (r: String)
    ensures
        r@ == spec_canonical_key_name(s@),
{
    let n = s.unicode_len();
    if n >= 3 && s.get_char(0) == 'K' && s.get_char(1) == 'C' && s.get_char(2) == '_' {
        s.to_owned()
    } else {
        let mut r = "KC_".to_owned();
        r.append(s);
        r
    }
}

} // verus!
