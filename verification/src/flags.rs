//! Flag assembly: merging compiler-default flags, ambient environment flags
//! and user-supplied flags into one ordered flag string per flag class.

use vstd::prelude::*;
use crate::text::join2;

verus! {

/// The assembled flag string for one flag class: default flags first, then
/// the ambient environment value, then the user's accumulated flags, each
/// non-empty segment separated by a single space, empty segments omitted,
/// with no leading or trailing separator.
pub open spec fn assembled_flags(
    dflt: Seq<char>,
    ambient: Option<Seq<char>>,
    user: Seq<char>,
) -> Seq<char> {
    join2(
        join2(
            dflt,
            match ambient {
                Some(e) => e,
                None => Seq::empty(),
            },
        ),
        user,
    )
}

/// With all three segments non-empty, the assembled string is exactly
/// default, space, environment, space, user; the other cases omit the empty
/// segments and their separators by the definition of `join2`.
pub proof fn lemma_flag_order(dflt: Seq<char>, ambient: Seq<char>, user: Seq<char>)
    requires
        dflt.len() > 0,
        ambient.len() > 0,
        user.len() > 0,
    ensures
        assembled_flags(dflt, Some(ambient), user) == dflt + seq![' '] + ambient + seq![' ']
            + user,
{
}

/// Joins two flag segments with a single space, omitting empty segments.
pub fn join2_str(a: &str, b: &str) -> (r: String)
    ensures
        r@ == join2(a@, b@),
{
    if a.is_empty() {
        String::from_str(b)
    } else if b.is_empty() {
        String::from_str(a)
    } else {
        let mut out = String::from_str(a);
        out.append(" ");
        out.append(b);
        proof {
            reveal_strlit(" ");
            assert(" "@ =~= seq![' ']);
        }
        out
    }
}

/// Assembles one flag class in the order default, environment, user.
pub fn assemble_flags(dflt: &str, ambient: &Option<String>, user: &str) -> (r: String)
    ensures
        r@ == assembled_flags(dflt@, ambient.deep_view(), user@),
{
    let de = match ambient {
        Some(e) => join2_str(dflt, e.as_str()),
        None => String::from_str(dflt),
    };
    join2_str(de.as_str(), user)
}

/// The linker-flag environment entry: absent when the user accumulator is
/// empty and no ambient value is set (distinguishing "unset" from "set to
/// empty"); otherwise the assembled value with no compiler-default segment.
pub open spec fn ld_env_value(ambient: Option<Seq<char>>, user: Seq<char>) -> Option<Seq<char>> {
    if user.len() == 0 && ambient is None {
        None
    } else {
        Some(assembled_flags(Seq::empty(), ambient, user))
    }
}

/// Computes the linker-flag environment entry.
pub fn ld_env_entry(ambient: &Option<String>, user: &str) -> (r: Option<String>)
    ensures
        r.deep_view() == ld_env_value(ambient.deep_view(), user@),
{
    if user.is_empty() && ambient.is_none() {
        None
    } else {
        proof {
            reveal_strlit("");
            assert(""@ =~= Seq::<char>::empty());
        }
        Some(assemble_flags("", ambient, user))
    }
}

} // verus!
