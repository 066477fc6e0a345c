//! The cache fingerprint gate: a canonical, stable textual rendering of a
//! planned command, and the decision whether the configure phase may be
//! skipped because an identical invocation was already recorded.

use vstd::prelude::*;
use crate::text::{first_idx_of, lemma_first_idx_is, str_eq};

verus! {

/// One character of a token in the record text: a backslash introduces the
/// two escapes `\n` (newline) and `\\` (backslash); every other character
/// stands for itself.
pub open spec fn escaped_char(c: char) -> Seq<char> {
    if c == '\n' {
        seq!['\\', 'n']
    } else if c == '\\' {
        seq!['\\', '\\']
    } else {
        seq![c]
    }
}

/// One token's text in the record: each character escaped, so that the
/// newline that ends the token cannot occur inside it.
pub open spec fn escaped_token(t: Seq<char>) -> Seq<char>
    decreases t.len(),
{
    if t.len() == 0 {
        Seq::empty()
    } else {
        escaped_char(t[0]) + escaped_token(t.drop_first())
    }
}

/// The canonical record text of a token sequence: every token escaped and
/// terminated by a newline.
pub open spec fn rendered_record(ts: Seq<Seq<char>>) -> Seq<char>
    decreases ts.len(),
{
    if ts.len() == 0 {
        Seq::empty()
    } else {
        escaped_token(ts[0]) + seq!['\n'] + rendered_record(ts.drop_first())
    }
}

/// Escaping one more character extends the escaped token by that character's
/// escape.
proof fn lemma_escaped_push(t: Seq<char>, c: char)
    ensures
        escaped_token(t.push(c)) == escaped_token(t) + escaped_char(c),
    decreases t.len(),
{
    reveal_with_fuel(escaped_token, 3);
    if t.len() == 0 {
        assert(t.push(c)[0] == c);
        assert(t.push(c).drop_first() =~= Seq::<char>::empty());
        assert(escaped_token(t.push(c)) =~= escaped_token(t) + escaped_char(c));
    } else {
        assert(t.push(c)[0] == t[0]);
        assert(t.push(c).drop_first() =~= t.drop_first().push(c));
        lemma_escaped_push(t.drop_first(), c);
        assert(escaped_token(t.push(c)) =~= escaped_token(t) + escaped_char(c));
    }
}

/// An escaped token never contains a bare newline.
proof fn lemma_escaped_no_newline(t: Seq<char>)
    ensures
        forall|j: int| 0 <= j < escaped_token(t).len() ==> escaped_token(t)[j] != '\n',
    decreases t.len(),
{
    if t.len() > 0 {
        lemma_escaped_no_newline(t.drop_first());
        let e0 = escaped_char(t[0]);
        assert forall|j: int| 0 <= j < escaped_token(t).len() implies escaped_token(t)[j]
            != '\n' by {
            if j < e0.len() {
                assert(escaped_token(t)[j] == e0[j]);
            } else {
                assert(escaped_token(t)[j] == escaped_token(t.drop_first())[j - e0.len()]);
            }
        }
    }
}

/// Escaping is injective: equal escaped texts imply equal tokens.
proof fn lemma_escaped_injective(a: Seq<char>, b: Seq<char>)
    requires
        escaped_token(a) == escaped_token(b),
    ensures
        a == b,
    decreases a.len(),
{
    let ea = escaped_token(a);
    let eb = escaped_token(b);
    if a.len() == 0 && b.len() == 0 {
        assert(a =~= b);
    } else if a.len() == 0 {
        assert(eb == escaped_char(b[0]) + escaped_token(b.drop_first()));
        assert(eb.len() >= 1);
    } else if b.len() == 0 {
        assert(ea == escaped_char(a[0]) + escaped_token(a.drop_first()));
        assert(ea.len() >= 1);
    } else {
        assert(ea == escaped_char(a[0]) + escaped_token(a.drop_first()));
        assert(eb == escaped_char(b[0]) + escaped_token(b.drop_first()));
        let ca = escaped_char(a[0]);
        let cb = escaped_char(b[0]);
        assert(ea[0] == ca[0]);
        assert(ea[0] == cb[0]);
        let a_special = a[0] == '\n' || a[0] == '\\';
        let b_special = b[0] == '\n' || b[0] == '\\';
        if a_special {
            assert(ca[0] == '\\');
            if !b_special {
                assert(cb[0] == b[0]);
                assert(false);
            }
            assert(ea[1] == ca[1]);
            assert(ea[1] == cb[1]);
            assert(a[0] == b[0]);
            assert(escaped_token(a.drop_first()) =~= ea.subrange(2, ea.len() as int));
            assert(escaped_token(b.drop_first()) =~= ea.subrange(2, ea.len() as int));
        } else {
            assert(ca[0] == a[0]);
            if b_special {
                assert(cb[0] == '\\');
                assert(false);
            }
            assert(cb[0] == b[0]);
            assert(a[0] == b[0]);
            assert(escaped_token(a.drop_first()) =~= ea.subrange(1, ea.len() as int));
            assert(escaped_token(b.drop_first()) =~= ea.subrange(1, ea.len() as int));
        }
        lemma_escaped_injective(a.drop_first(), b.drop_first());
        assert forall|i: int| 0 <= i < a.len() implies a[i] == b[i] by {
            if i > 0 {
                assert(a.drop_first()[i - 1] == a[i]);
                assert(b.drop_first()[i - 1] == b[i]);
            }
        }
        assert(a =~= b);
    }
}

/// Appending a token extends the record by that token's escaped text and a
/// newline.
proof fn lemma_record_push(ts: Seq<Seq<char>>, t: Seq<char>)
    ensures
        rendered_record(ts.push(t)) == rendered_record(ts) + escaped_token(t) + seq!['\n'],
    decreases ts.len(),
{
    reveal_with_fuel(rendered_record, 3);
    if ts.len() == 0 {
        assert(ts.push(t)[0] == t);
        assert(ts.push(t).drop_first() =~= Seq::<Seq<char>>::empty());
        assert(rendered_record(ts.push(t)) =~= rendered_record(ts) + escaped_token(t)
            + seq!['\n']);
    } else {
        assert(ts.push(t)[0] == ts[0]);
        assert(ts.push(t).drop_first() =~= ts.drop_first().push(t));
        lemma_record_push(ts.drop_first(), t);
        assert(rendered_record(ts.push(t)) =~= rendered_record(ts) + escaped_token(t)
            + seq!['\n']);
    }
}

/// In the record of a non-empty token sequence, the first newline stands
/// right after the head token's escaped text.
proof fn lemma_first_newline(ts: Seq<Seq<char>>)
    requires
        ts.len() > 0,
    ensures
        first_idx_of(rendered_record(ts), '\n') == escaped_token(ts[0]).len(),
        rendered_record(ts).len() > escaped_token(ts[0]).len(),
{
    let e0 = escaped_token(ts[0]);
    let r = rendered_record(ts);
    assert(r == e0 + seq!['\n'] + rendered_record(ts.drop_first()));
    assert(r[e0.len() as int] == '\n');
    lemma_escaped_no_newline(ts[0]);
    assert forall|j: int| 0 <= j < e0.len() implies r[j] != '\n' by {
        assert(r[j] == e0[j]);
    }
    lemma_first_idx_is(r, '\n', e0.len() as int);
}

/// The canonical record is injective: equal record texts imply equal token
/// sequences, whatever characters the tokens hold.
pub proof fn lemma_record_injective(a: Seq<Seq<char>>, b: Seq<Seq<char>>)
    requires
        rendered_record(a) == rendered_record(b),
    ensures
        a == b,
    decreases a.len(),
{
    let ra = rendered_record(a);
    let rb = rendered_record(b);
    if a.len() == 0 && b.len() == 0 {
        assert(a =~= b);
    } else if a.len() == 0 {
        assert(rb == escaped_token(b[0]) + seq!['\n'] + rendered_record(b.drop_first()));
        assert(rb.len() > 0);
    } else if b.len() == 0 {
        assert(ra == escaped_token(a[0]) + seq!['\n'] + rendered_record(a.drop_first()));
        assert(ra.len() > 0);
    } else {
        lemma_first_newline(a);
        lemma_first_newline(b);
        let n = escaped_token(a[0]).len() as int;
        assert(escaped_token(b[0]).len() == n);
        assert(escaped_token(a[0]) =~= ra.subrange(0, n)) by {
            assert(ra == escaped_token(a[0]) + seq!['\n'] + rendered_record(a.drop_first()));
        }
        assert(escaped_token(b[0]) =~= rb.subrange(0, n)) by {
            assert(rb == escaped_token(b[0]) + seq!['\n'] + rendered_record(b.drop_first()));
        }
        lemma_escaped_injective(a[0], b[0]);
        assert(rendered_record(a.drop_first()) =~= ra.subrange(n + 1, ra.len() as int)) by {
            assert(ra == escaped_token(a[0]) + seq!['\n'] + rendered_record(a.drop_first()));
        }
        assert(rendered_record(b.drop_first()) =~= rb.subrange(n + 1, rb.len() as int)) by {
            assert(rb == escaped_token(b[0]) + seq!['\n'] + rendered_record(b.drop_first()));
        }
        lemma_record_injective(a.drop_first(), b.drop_first());
        assert forall|i: int| 0 <= i < a.len() implies a[i] == b[i] by {
            if i > 0 {
                assert(a.drop_first()[i - 1] == a[i]);
                assert(b.drop_first()[i - 1] == b[i]);
            }
        }
        assert(a =~= b);
    }
}

/// Appends one token's escaped text.
fn append_escaped(out: &mut String, t: &str)
    ensures
        final(out)@ == old(out)@ + escaped_token(t@),
{
    let ghost base = out@;
    let n = t.unicode_len();
    let mut i: usize = 0;
    proof {
        assert(escaped_token(t@.take(0)) =~= Seq::<char>::empty());
        assert(out@ =~= base + escaped_token(t@.take(0)));
    }
    while i < n
        invariant
            n == t@.len(),
            0 <= i <= n,
            out@ == base + escaped_token(t@.take(i as int)),
        decreases n - i,
    {
        let c = t.get_char(i);
        if c == '\n' {
            out.append("\\n");
            proof {
                reveal_strlit("\\n");
                assert("\\n"@ =~= seq!['\\', 'n']);
            }
        } else if c == '\\' {
            out.append("\\\\");
            proof {
                reveal_strlit("\\\\");
                assert("\\\\"@ =~= seq!['\\', '\\']);
            }
        } else {
            let one = t.substring_char(i, i + 1);
            out.append(one);
            proof {
                assert(one@ =~= seq![t@[i as int]]);
            }
        }
        proof {
            lemma_escaped_push(t@.take(i as int), t@[i as int]);
            assert(t@.take(i + 1) =~= t@.take(i as int).push(t@[i as int]));
            assert(out@ =~= base + escaped_token(t@.take(i + 1)));
        }
        i += 1;
    }
    proof {
        assert(t@.take(n as int) =~= t@);
    }
}

/// Renders a token list as its canonical record text.
pub fn render_record(tokens: &Vec<String>) -> (r: String)
    ensures
        r@ == rendered_record(tokens.deep_view()),
{
    let ghost tv = tokens.deep_view();
    let mut out = String::new();
    let mut i: usize = 0;
    proof {
        assert(tv.take(0) =~= Seq::<Seq<char>>::empty());
    }
    while i < tokens.len()
        invariant
            tv == tokens.deep_view(),
            tv.len() == tokens.len(),
            0 <= i <= tokens.len(),
            out@ == rendered_record(tv.take(i as int)),
        decreases tokens.len() - i,
    {
        append_escaped(&mut out, tokens[i].as_str());
        out.append("\n");
        proof {
            reveal_strlit("\n");
            assert("\n"@ =~= seq!['\n']);
            lemma_record_push(tv.take(i as int), tv[i as int]);
            assert(tv.take(i + 1) =~= tv.take(i as int).push(tv[i as int]));
        }
        i += 1;
    }
    proof {
        assert(tv.take(tv.len() as int) =~= tv);
    }
    out
}

/// Decides whether the configure phase must run.  It may be skipped only
/// when fingerprint caching is enabled, all three cache artifacts are
/// present, and the stored record matches the newly rendered fingerprint
/// byte for byte.
pub fn configure_must_run(
    fast_build: bool,
    artifacts_present: bool,
    stored: &Option<String>,
    fingerprint: &str,
) -> (r: bool)
    ensures
        r == !(fast_build && artifacts_present && stored.deep_view() == Some(fingerprint@)),
{
    if !fast_build {
        return true;
    }
    if !artifacts_present {
        return true;
    }
    match stored {
        Some(s) => !str_eq(s.as_str(), fingerprint),
        None => true,
    }
}

} // verus!
