//! Host-triple derivation: reading the autotools `--host=` triple out of a
//! cross compiler's executable name.

use vstd::prelude::*;
use crate::text::{ends_with, str_eq, strip_suffix};

verus! {

/// The autotools host triple derived from a C compiler's name: what remains
/// of the name after stripping a trailing `-cc` or `-gcc`, provided that
/// remainder is non-empty.  `musl-gcc` is a wrapper name rather than a
/// triple and yields nothing, as does a name with neither suffix or with
/// nothing before it.
pub open spec fn derived_host(cc_name: Seq<char>) -> Option<Seq<char>> {
    if cc_name == seq!['m', 'u', 's', 'l', '-', 'g', 'c', 'c'] {
        None
    } else if ends_with(cc_name, seq!['-', 'c', 'c']) && cc_name.len() > 3 {
        Some(cc_name.subrange(0, cc_name.len() - 3))
    } else if ends_with(cc_name, seq!['-', 'g', 'c', 'c']) && cc_name.len() > 4 {
        Some(cc_name.subrange(0, cc_name.len() - 4))
    } else {
        None
    }
}

/// Derives the `--host=` triple from the discovered C compiler's name.
pub fn derive_host(cc_name: &str) -> (r: Option<String>)
    ensures
        r.deep_view() == derived_host(cc_name@),
{
    proof {
        reveal_strlit("musl-gcc");
        reveal_strlit("-cc");
        reveal_strlit("-gcc");
        assert("musl-gcc"@ =~= seq!['m', 'u', 's', 'l', '-', 'g', 'c', 'c']);
        assert("-cc"@ =~= seq!['-', 'c', 'c']);
        assert("-gcc"@ =~= seq!['-', 'g', 'c', 'c']);
    }
    if str_eq(cc_name, "musl-gcc") {
        return None;
    }
    let short = strip_suffix(cc_name, "-cc");
    match short {
        Some(p) => {
            if !p.is_empty() {
                return Some(String::from_str(p));
            }
        },
        None => {},
    }
    let longer = strip_suffix(cc_name, "-gcc");
    match longer {
        Some(p) => {
            if !p.is_empty() {
                Some(String::from_str(p))
            } else {
                None
            }
        },
        None => None,
    }
}

} // verus!
