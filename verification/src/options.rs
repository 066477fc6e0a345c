//! Option encoding: turning typed `(kind, name, value)` entries into
//! `--kind-name[=value]` tokens, parsing such tokens back, and filtering a
//! token list against a set of forbidden argument names.

use vstd::prelude::*;
use crate::text::{find_char, first_idx_of, starts_with, str_eq, str_starts_with};

verus! {

/// The kind of a configure option: `--enable-`, `--disable-`, `--with-`,
/// `--without-`, or an arbitrary `--` option with no kind prefix.
#[derive(Clone, Copy, PartialEq, Eq, Debug)]
pub enum Kind {
    Enable,
    Disable,
    With,
    Without,
    Arbitrary,
}

/// One configure option entry: kind, token-safe name, optional value.
#[derive(Debug)]
pub struct ConfigOption {
    pub kind: Kind,
    pub name: String,
    pub value: Option<String>,
}

/// The mathematical view of one option entry.
#[verifier::ext_equal]
pub ghost struct OptionView {
    pub kind: Kind,
    pub name: Seq<char>,
    pub value: Option<Seq<char>>,
}

impl View for ConfigOption {
    type V = OptionView;

    open spec fn view(&self) -> OptionView {
        OptionView { kind: self.kind, name: self.name@, value: self.value.deep_view() }
    }
}

impl DeepView for ConfigOption {
    type V = OptionView;

    open spec fn deep_view(&self) -> OptionView {
        self.view()
    }
}

/// The textual prefix each kind contributes after the leading `--`.
pub open spec fn kind_prefix(k: Kind) -> Seq<char> {
    match k {
        Kind::Enable => seq!['e', 'n', 'a', 'b', 'l', 'e', '-'],
        Kind::Disable => seq!['d', 'i', 's', 'a', 'b', 'l', 'e', '-'],
        Kind::With => seq!['w', 'i', 't', 'h', '-'],
        Kind::Without => seq!['w', 'i', 't', 'h', 'o', 'u', 't', '-'],
        Kind::Arbitrary => Seq::empty(),
    }
}

/// The canonical rendering `--<prefix><name>[=<value>]` of one option.
pub open spec fn encoded_option(k: Kind, name: Seq<char>, value: Option<Seq<char>>) -> Seq<char> {
    let base = seq!['-', '-'] + kind_prefix(k) + name;
    match value {
        Some(v) => base + seq!['='] + v,
        None => base,
    }
}

/// Renders one option as its configure token.
pub fn encode_option(o: &ConfigOption) -> (r: String)
    ensures
        r@ == encoded_option(o.kind, o.name@, o.value.deep_view()),
{
    let mut out = String::from_str("--");
    proof {
        reveal_strlit("--");
        assert("--"@ =~= seq!['-', '-']);
    }
    match o.kind {
        Kind::Enable => {
            out.append("enable-");
            proof {
                reveal_strlit("enable-");
                assert("enable-"@ =~= kind_prefix(Kind::Enable));
            }
        },
        Kind::Disable => {
            out.append("disable-");
            proof {
                reveal_strlit("disable-");
                assert("disable-"@ =~= kind_prefix(Kind::Disable));
            }
        },
        Kind::With => {
            out.append("with-");
            proof {
                reveal_strlit("with-");
                assert("with-"@ =~= kind_prefix(Kind::With));
            }
        },
        Kind::Without => {
            out.append("without-");
            proof {
                reveal_strlit("without-");
                assert("without-"@ =~= kind_prefix(Kind::Without));
            }
        },
        Kind::Arbitrary => {
            proof {
                assert(out@ =~= seq!['-', '-'] + kind_prefix(Kind::Arbitrary));
            }
        },
    }
    out.append(o.name.as_str());
    match &o.value {
        Some(v) => {
            out.append("=");
            out.append(v.as_str());
            proof {
                reveal_strlit("=");
                assert("="@ =~= seq!['=']);
            }
        },
        None => {},
    }
    proof {
        assert(out@ =~= encoded_option(o.kind, o.name@, o.value.deep_view()));
    }
    out
}

/// The kind read back from a token body (the part after `--`), checking the
/// longer prefixes before their proper prefixes.
pub open spec fn parsed_kind(rest: Seq<char>) -> Kind {
    if starts_with(rest, kind_prefix(Kind::Enable)) {
        Kind::Enable
    } else if starts_with(rest, kind_prefix(Kind::Disable)) {
        Kind::Disable
    } else if starts_with(rest, kind_prefix(Kind::Without)) {
        Kind::Without
    } else if starts_with(rest, kind_prefix(Kind::With)) {
        Kind::With
    } else {
        Kind::Arbitrary
    }
}

/// Reads a configure token back into `(kind, name, value)`; `None` when the
/// token does not begin with `--`.
pub open spec fn parsed_option(t: Seq<char>) -> Option<(Kind, Seq<char>, Option<Seq<char>>)> {
    if !starts_with(t, seq!['-', '-']) {
        None
    } else {
        let rest = t.subrange(2, t.len() as int);
        let k = parsed_kind(rest);
        let body = rest.subrange(kind_prefix(k).len() as int, rest.len() as int);
        let e = first_idx_of(body, '=');
        if e == body.len() {
            Some((k, body, None))
        } else {
            Some((k, body.subrange(0, e), Some(body.subrange(e + 1, body.len() as int))))
        }
    }
}

/// Parses a `--<prefix><name>[=<value>]` token back into an option entry.
pub fn parse_option(t: &str) -> (r: Option<ConfigOption>)
    ensures
        match r {
            Some(o) => parsed_option(t@) == Some((o.kind, o.name@, o.value.deep_view())),
            None => parsed_option(t@) is None,
        },
{
    let n = t.unicode_len();
    if n < 2 || t.get_char(0) != '-' || t.get_char(1) != '-' {
        proof {
            if starts_with(t@, seq!['-', '-']) {
                assert(t@.subrange(0, 2)[0] == t@[0]);
                assert(t@.subrange(0, 2)[1] == t@[1]);
            }
        }
        return None;
    }
    proof {
        assert(t@.subrange(0, 2) =~= seq!['-', '-']);
    }
    let rest = t.substring_char(2, n);
    proof {
        reveal_strlit("enable-");
        reveal_strlit("disable-");
        reveal_strlit("without-");
        reveal_strlit("with-");
        assert("enable-"@ =~= kind_prefix(Kind::Enable));
        assert("disable-"@ =~= kind_prefix(Kind::Disable));
        assert("without-"@ =~= kind_prefix(Kind::Without));
        assert("with-"@ =~= kind_prefix(Kind::With));
    }
    let rlen = n - 2;
    let kp: (Kind, usize) = if str_starts_with(rest, "enable-") {
        (Kind::Enable, 7)
    } else if str_starts_with(rest, "disable-") {
        (Kind::Disable, 8)
    } else if str_starts_with(rest, "without-") {
        (Kind::Without, 8)
    } else if str_starts_with(rest, "with-") {
        (Kind::With, 5)
    } else {
        (Kind::Arbitrary, 0)
    };
    let kind = kp.0;
    let plen = kp.1;
    proof {
        assert(parsed_kind(rest@) == kind);
        assert(kind_prefix(kind).len() == plen);
    }
    let body = rest.substring_char(plen, rlen);
    let bl = rlen - plen;
    let e = find_char(body, '=');
    if e == bl {
        Some(ConfigOption { kind, name: String::from_str(body), value: None })
    } else {
        let name = body.substring_char(0, e);
        let val = body.substring_char(e + 1, bl);
        Some(
            ConfigOption {
                kind,
                name: String::from_str(name),
                value: Some(String::from_str(val)),
            },
        )
    }
}

/// No kind prefix contains the `=` separator.
proof fn lemma_prefix_no_eq(k: Kind)
    ensures
        forall|j: int| 0 <= j < kind_prefix(k).len() ==> kind_prefix(k)[j] != '=',
{
}

/// Encoding an option and parsing the token back recovers the original
/// `(kind, name, value)` triple, provided the name is free of `=` and an
/// arbitrary option's name does not itself begin with one of the four kind
/// prefixes.
pub proof fn lemma_option_round_trip(k: Kind, name: Seq<char>, value: Option<Seq<char>>)
    requires
        !name.contains('='),
        k is Arbitrary ==> !starts_with(name, kind_prefix(Kind::Enable)) && !starts_with(
            name,
            kind_prefix(Kind::Disable),
        ) && !starts_with(name, kind_prefix(Kind::Without)) && !starts_with(
            name,
            kind_prefix(Kind::With),
        ),
    ensures
        parsed_option(encoded_option(k, name, value)) == Some((k, name, value)),
{
    let t = encoded_option(k, name, value);
    let dd = seq!['-', '-'];
    assert(t.subrange(0, 2) =~= dd);
    let rest = t.subrange(2, t.len() as int);
    assert(rest =~= match value {
        Some(v) => kind_prefix(k) + name + seq!['='] + v,
        None => kind_prefix(k) + name,
    });
    lemma_parsed_kind_of_encoded(k, name, value);
    let body = rest.subrange(kind_prefix(k).len() as int, rest.len() as int);
    assert(body =~= match value {
        Some(v) => name + seq!['='] + v,
        None => name,
    });
    match value {
        Some(v) => {
            crate::text::lemma_first_idx_is(body, '=', name.len() as int);
            assert(body.subrange(0, name.len() as int) =~= name);
            assert(body.subrange(name.len() as int + 1, body.len() as int) =~= v);
        },
        None => {
            crate::text::lemma_first_idx_is(body, '=', name.len() as int);
        },
    }
}

/// The kind prefix written by the encoder is the one the parser reads back.
#[verifier::rlimit(60)]
proof fn lemma_parsed_kind_of_encoded(k: Kind, name: Seq<char>, value: Option<Seq<char>>)
    requires
        !name.contains('='),
        k is Arbitrary ==> !starts_with(name, kind_prefix(Kind::Enable)) && !starts_with(
            name,
            kind_prefix(Kind::Disable),
        ) && !starts_with(name, kind_prefix(Kind::Without)) && !starts_with(
            name,
            kind_prefix(Kind::With),
        ),
    ensures
        parsed_kind(encoded_option(k, name, value).subrange(2, encoded_option(k, name, value).len() as int))
            == k,
{
    let t = encoded_option(k, name, value);
    let rest = t.subrange(2, t.len() as int);
    assert(rest =~= match value {
        Some(v) => kind_prefix(k) + name + seq!['='] + v,
        None => kind_prefix(k) + name,
    });
    match k {
        Kind::Enable => {
            assert(starts_with(rest, kind_prefix(Kind::Enable))) by {
                assert(rest.subrange(0, 7) =~= kind_prefix(Kind::Enable));
            }
        },
        Kind::Disable => {
            assert(starts_with(rest, kind_prefix(Kind::Disable))) by {
                assert(rest.subrange(0, 8) =~= kind_prefix(Kind::Disable));
            }
            lemma_not_prefixed(rest, k, Kind::Enable);
        },
        Kind::Without => {
            assert(starts_with(rest, kind_prefix(Kind::Without))) by {
                assert(rest.subrange(0, 8) =~= kind_prefix(Kind::Without));
            }
            lemma_not_prefixed(rest, k, Kind::Enable);
            lemma_not_prefixed(rest, k, Kind::Disable);
        },
        Kind::With => {
            assert(starts_with(rest, kind_prefix(Kind::With))) by {
                assert(rest.subrange(0, 5) =~= kind_prefix(Kind::With));
            }
            lemma_not_prefixed(rest, k, Kind::Enable);
            lemma_not_prefixed(rest, k, Kind::Disable);
            lemma_not_prefixed(rest, k, Kind::Without);
        },
        Kind::Arbitrary => {
            lemma_arbitrary_not_prefixed(name, value, Kind::Enable);
            lemma_arbitrary_not_prefixed(name, value, Kind::Disable);
            lemma_arbitrary_not_prefixed(name, value, Kind::Without);
            lemma_arbitrary_not_prefixed(name, value, Kind::With);
        },
    }
}

/// A token body that begins with the full prefix of kind `written` cannot
/// also begin with the prefix of a different kind `other` that the parser
/// checks earlier.
proof fn lemma_not_prefixed(rest: Seq<char>, written: Kind, other: Kind)
    requires
        starts_with(rest, kind_prefix(written)),
        written is Disable || written is Without || written is With,
        other is Enable || other is Disable || other is Without,
        !(written is Disable && other is Disable),
        !(written is Without && other is Without),
        !(written is With && other is With),
    ensures
        !starts_with(rest, kind_prefix(other)),
{
    let wp = kind_prefix(written);
    let op = kind_prefix(other);
    if starts_with(rest, op) {
        assert(rest.subrange(0, wp.len() as int)[0] == rest[0]);
        assert(rest.subrange(0, op.len() as int)[0] == rest[0]);
        if written is Disable {
            assert(rest[0] == 'd');
            assert(rest[0] != 'd');
        } else if written is Without {
            if other is Enable {
                assert(rest[0] == 'w');
                assert(rest[0] != 'w');
            } else {
                assert(rest[0] == 'w');
                assert(rest[0] != 'w');
            }
        } else {
            if other is Without {
                assert(rest.subrange(0, wp.len() as int)[4] == rest[4]);
                assert(rest.subrange(0, op.len() as int)[4] == rest[4]);
                assert(rest[4] == '-');
                assert(rest[4] == 'o');
            } else {
                assert(rest[0] == 'w');
                assert(rest[0] != 'w');
            }
        }
    }
}

/// An arbitrary option whose name carries no kind prefix encodes to a token
/// body that carries none either.
proof fn lemma_arbitrary_not_prefixed(name: Seq<char>, value: Option<Seq<char>>, other: Kind)
    requires
        !name.contains('='),
        !starts_with(name, kind_prefix(other)),
        !(other is Arbitrary),
    ensures
        !starts_with(
            encoded_option(Kind::Arbitrary, name, value).subrange(
                2,
                encoded_option(Kind::Arbitrary, name, value).len() as int,
            ),
            kind_prefix(other),
        ),
{
    let t = encoded_option(Kind::Arbitrary, name, value);
    let rest = t.subrange(2, t.len() as int);
    assert(rest =~= match value {
        Some(v) => name + seq!['='] + v,
        None => name,
    });
    let op = kind_prefix(other);
    if starts_with(rest, op) {
        if name.len() >= op.len() {
            assert(name.subrange(0, op.len() as int) =~= rest.subrange(0, op.len() as int));
        } else {
            match value {
                Some(v) => {
                    assert(rest[name.len() as int] == '=');
                    assert(rest.subrange(0, op.len() as int)[name.len() as int]
                        == rest[name.len() as int]);
                    lemma_prefix_no_eq(other);
                },
                None => {},
            }
        }
    }
}

/// The part of a configure token before its first `=`, or the whole token
/// when it has none.
pub open spec fn arg_head(t: Seq<char>) -> Seq<char> {
    t.subrange(0, first_idx_of(t, '='))
}

/// Whether a forbidden name `name` excludes the token `t`: the token's
/// pre-`=` part must be exactly `--name`.
pub open spec fn matches_forbidden_name(t: Seq<char>, name: Seq<char>) -> bool {
    arg_head(t) == seq!['-', '-'] + name
}

/// Whether any name of the forbidden set excludes the token `t`.
pub open spec fn is_forbidden(t: Seq<char>, forbidden: Seq<Seq<char>>) -> bool {
    exists|i: int|
        0 <= i < forbidden.len() && #[trigger] matches_forbidden_name(t, forbidden[i])
}

/// Decides whether one token is excluded by the forbidden-name set.
pub fn token_forbidden(t: &str, forbidden: &Vec<String>) -> (r: bool)
    ensures
        r == is_forbidden(t@, forbidden.deep_view()),
{
    let ghost fb = forbidden.deep_view();
    proof {
        crate::text::lemma_first_idx_of(t@, '=');
    }
    let e = find_char(t, '=');
    let head = t.substring_char(0, e);
    proof {
        assert(head@ == arg_head(t@));
    }
    if e < 2 || head.get_char(0) != '-' || head.get_char(1) != '-' {
        proof {
            assert forall|i: int| 0 <= i < fb.len() implies !matches_forbidden_name(
                t@,
                fb[i],
            ) by {
                if matches_forbidden_name(t@, fb[i]) {
                    assert(arg_head(t@)[0] == (seq!['-', '-'] + fb[i])[0]);
                    assert(arg_head(t@)[1] == (seq!['-', '-'] + fb[i])[1]);
                }
            }
        }
        return false;
    }
    let tail = head.substring_char(2, e);
    let mut i: usize = 0;
    while i < forbidden.len()
        invariant
            fb == forbidden.deep_view(),
            fb.len() == forbidden.len(),
            0 <= i <= forbidden.len(),
            tail@ == arg_head(t@).subrange(2, arg_head(t@).len() as int),
            arg_head(t@).len() >= 2,
            arg_head(t@)[0] == '-',
            arg_head(t@)[1] == '-',
            forall|j: int| 0 <= j < i ==> !matches_forbidden_name(t@, #[trigger] fb[j]),
        decreases forbidden.len() - i,
    {
        if str_eq(tail, forbidden[i].as_str()) {
            proof {
                assert(arg_head(t@) =~= seq!['-', '-'] + fb[i as int]);
                assert(matches_forbidden_name(t@, fb[i as int]));
            }
            return true;
        }
        proof {
            if matches_forbidden_name(t@, fb[i as int]) {
                assert(fb[i as int] =~= tail@);
            }
        }
        i += 1;
    }
    false
}

/// Drops every token that the forbidden-name set excludes, keeping the rest
/// in order.
pub fn keep_allowed_args(args: &Vec<String>, forbidden: &Vec<String>) -> (r: Vec<String>)
    ensures
        r.deep_view() == args.deep_view().filter(
            |t: Seq<char>| !is_forbidden(t, forbidden.deep_view()),
        ),
{
    let ghost av = args.deep_view();
    let ghost fb = forbidden.deep_view();
    let ghost keep = |t: Seq<char>| !is_forbidden(t, fb);
    let mut out: Vec<String> = Vec::new();
    let mut i: usize = 0;
    proof {
        assert(av.take(0) =~= Seq::<Seq<char>>::empty());
        assert(out.deep_view() =~= av.take(0).filter(keep));
    }
    while i < args.len()
        invariant
            av == args.deep_view(),
            fb == forbidden.deep_view(),
            keep == (|t: Seq<char>| !is_forbidden(t, fb)),
            av.len() == args.len(),
            0 <= i <= args.len(),
            out.deep_view() == av.take(i as int).filter(keep),
        decreases args.len() - i,
    {
        let ghost prev = out.deep_view();
        if !token_forbidden(args[i].as_str(), forbidden) {
            out.push(args[i].clone());
            proof {
                assert(out.deep_view() =~= prev.push(av[i as int]));
            }
        }
        proof {
            reveal(Seq::filter);
            assert(av.take(i + 1).drop_last() =~= av.take(i as int));
            assert(av.take(i + 1).last() == av[i as int]);
            assert(av.take(i + 1).filter(keep) == if keep(av[i as int]) {
                av.take(i as int).filter(keep).push(av[i as int])
            } else {
                av.take(i as int).filter(keep)
            });
        }
        i += 1;
    }
    proof {
        assert(av.take(av.len() as int) =~= av);
    }
    out
}

} // verus!
