//! Slug derivation for heading anchors.
//!
//! A slug is the URL-fragment-safe identifier derived from heading text:
//! every character that is not an ASCII alphanumeric becomes a hyphen,
//! uppercase ASCII letters are lowered, runs of hyphens collapse to one,
//! and leading and trailing hyphens are trimmed.  The derivation is
//! idempotent, and its output holds only lowercase ASCII alphanumerics
//! and single, interior hyphens.

use vstd::prelude::*;

verus! {

/// `c` is a lowercase ASCII letter or an ASCII digit.
pub open spec fn is_lower_alnum(c: char) -> bool {
    ('a' <= c && c <= 'z') || ('0' <= c && c <= '9')
}

/// `c` is an uppercase ASCII letter.
pub open spec fn is_upper(c: char) -> bool {
    'A' <= c && c <= 'Z'
}

/// The lowercase form of an uppercase ASCII letter; other characters
/// are unchanged.
pub open spec fn lower_char(c: char) -> char {
    if is_upper(c) {
        ((c as u8) + 32) as char
    } else {
        c
    }
}

/// One character of the slug alphabet: a mapped input character.
pub open spec fn map_char(c: char) -> char {
    if is_lower_alnum(c) || is_upper(c) {
        lower_char(c)
    } else {
        '-'
    }
}

/// Every input character mapped into the slug alphabet.
pub open spec fn mapped(s: Seq<char>) -> Seq<char> {
    s.map_values(|c: char| map_char(c))
}

/// `s` with every run of two or more hyphens collapsed to a single
/// hyphen: a character is dropped exactly when it and its predecessor
/// are both hyphens.
pub open spec fn collapsed(s: Seq<char>) -> Seq<char>
    decreases s.len(),
{
    if s.len() <= 1 {
        s
    } else if s.last() == '-' && s[s.len() - 2] == '-' {
        collapsed(s.drop_last())
    } else {
        collapsed(s.drop_last()).push(s.last())
    }
}

/// `s` with one leading and one trailing hyphen removed, if present.
pub open spec fn trimmed(s: Seq<char>) -> Seq<char> {
    let lo: int = if s.len() > 0 && s[0] == '-' {
        1
    } else {
        0
    };
    let hi: int = if s.len() > lo && s[s.len() - 1] == '-' {
        s.len() - 1
    } else {
        s.len() as int
    };
    s.subrange(lo, hi)
}

/// The slug of `s`.
pub open spec fn slug(s: Seq<char>) -> Seq<char> {
    trimmed(collapsed(mapped(s)))
}

/// `c` may appear in a finished slug.
pub open spec fn slug_char_ok(c: char) -> bool {
    is_lower_alnum(c) || c == '-'
}

/// Every character of `s` is in the slug alphabet.
pub open spec fn chars_ok(s: Seq<char>) -> bool {
    forall|i: int| 0 <= i < s.len() ==> slug_char_ok(#[trigger] s[i])
}

/// No two adjacent hyphens anywhere in `s`.
pub open spec fn no_double_hyphen(s: Seq<char>) -> bool {
    forall|i: int| 0 <= i && i + 1 < s.len() ==> !(#[trigger] s[i] == '-' && s[i + 1] == '-')
}

/// A well-formed slug: slug alphabet only, no adjacent hyphens, and no
/// hyphen at either end.
pub open spec fn slug_wf(s: Seq<char>) -> bool {
    &&& chars_ok(s)
    &&& no_double_hyphen(s)
    &&& s.len() > 0 ==> s[0] != '-' && s[s.len() - 1] != '-'
}

proof fn lemma_map_char_ok(c: char)
    ensures
        slug_char_ok(map_char(c)),
{
    if is_upper(c) {
        assert('a' <= lower_char(c) && lower_char(c) <= 'z');
    }
}

proof fn lemma_collapsed_props(s: Seq<char>)
    ensures
        collapsed(s).len() <= s.len(),
        s.len() > 0 ==> collapsed(s).len() > 0 && collapsed(s)[0] == s[0],
        s.len() > 0 ==> (collapsed(s).last() == '-' <==> s.last() == '-'),
        s.len() > 0 && s.last() != '-' ==> collapsed(s).last() == s.last(),
        chars_ok(s) ==> chars_ok(collapsed(s)),
        no_double_hyphen(collapsed(s)),
    decreases s.len(),
{
    if s.len() <= 1 {
    } else {
        let t = s.drop_last();
        lemma_collapsed_props(t);
        assert(chars_ok(s) ==> chars_ok(t)) by {
            if chars_ok(s) {
                assert forall|i: int| 0 <= i < t.len() implies slug_char_ok(#[trigger] t[i]) by {
                    assert(t[i] == s[i]);
                }
            }
        }
        if s.last() == '-' && s[s.len() - 2] == '-' {
            assert(collapsed(s) == collapsed(t));
            assert(t.last() == s[s.len() - 2]);
        } else {
            let c = collapsed(t);
            assert(collapsed(s) == c.push(s.last()));
            assert(c.push(s.last()).last() == s.last());
            assert(chars_ok(s) ==> chars_ok(c.push(s.last()))) by {
                if chars_ok(s) {
                    assert(slug_char_ok(s.last()));
                    assert forall|i: int| 0 <= i < c.push(s.last()).len() implies slug_char_ok(
                        #[trigger] c.push(s.last())[i],
                    ) by {
                        if i < c.len() {
                            assert(c.push(s.last())[i] == c[i]);
                        }
                    }
                }
            }
            assert(no_double_hyphen(c.push(s.last()))) by {
                let p = c.push(s.last());
                assert forall|i: int| 0 <= i && i + 1 < p.len() implies !(#[trigger] p[i] == '-'
                    && p[i + 1] == '-') by {
                    if i + 1 < c.len() {
                        assert(p[i] == c[i] && p[i + 1] == c[i + 1]);
                    } else {
                        // the appended character follows the old last one
                        assert(p[i] == c.last() && p[i + 1] == s.last());
                        if s.last() == '-' {
                            // a kept hyphen never follows a hyphen: the
                            // previous source character was not one
                            assert(t.last() == s[s.len() - 2]);
                            assert(t.last() != '-' || t.len() == 0);
                            if t.len() > 0 {
                                assert(c.last() != '-');
                            }
                        }
                    }
                }
            }
        }
    }
}

proof fn lemma_trimmed_wf(s: Seq<char>)
    requires
        chars_ok(s),
        no_double_hyphen(s),
    ensures
        slug_wf(trimmed(s)),
{
    let t = trimmed(s);
    assert forall|i: int| 0 <= i < t.len() implies slug_char_ok(#[trigger] t[i]) by {
        let lo: int = if s.len() > 0 && s[0] == '-' {
            1
        } else {
            0
        };
        assert(t[i] == s[i + lo]);
    }
    assert forall|i: int| 0 <= i && i + 1 < t.len() implies !(#[trigger] t[i] == '-' && t[i + 1]
        == '-') by {
        let lo: int = if s.len() > 0 && s[0] == '-' {
            1
        } else {
            0
        };
        assert(t[i] == s[i + lo] && t[i + 1] == s[i + lo + 1]);
    }
    if t.len() > 0 {
        let lo: int = if s.len() > 0 && s[0] == '-' {
            1
        } else {
            0
        };
        let hi: int = if s.len() > lo && s[s.len() - 1] == '-' {
            s.len() - 1
        } else {
            s.len() as int
        };
        assert(t[0] == s[lo]);
        if lo == 1 {
            assert(!(s[0] == '-' && s[1] == '-'));
        }
        assert(t[t.len() - 1] == s[hi - 1]);
        if hi == s.len() - 1 {
            assert(!(s[s.len() - 2] == '-' && s[s.len() - 1] == '-'));
        }
    }
}

/// The slug of any string is well-formed: lowercase ASCII alphanumerics
/// and single hyphens only, with no hyphen at either end.
pub proof fn lemma_slug_wf(s: Seq<char>)
    ensures
        slug_wf(slug(s)),
{
    assert(chars_ok(mapped(s))) by {
        assert forall|i: int| 0 <= i < mapped(s).len() implies slug_char_ok(
            #[trigger] mapped(s)[i],
        ) by {
            lemma_map_char_ok(s[i]);
        }
    }
    lemma_collapsed_props(mapped(s));
    lemma_trimmed_wf(collapsed(mapped(s)));
}

proof fn lemma_wf_fixed(s: Seq<char>)
    requires
        slug_wf(s),
    ensures
        slug(s) == s,
{
    assert(mapped(s) =~= s) by {
        assert forall|i: int| 0 <= i < s.len() implies mapped(s)[i] == s[i] by {
            assert(slug_char_ok(s[i]));
        }
    }
    lemma_no_double_collapsed_fixed(s);
    assert(trimmed(s) =~= s);
}

proof fn lemma_no_double_collapsed_fixed(s: Seq<char>)
    requires
        no_double_hyphen(s),
    ensures
        collapsed(s) == s,
    decreases s.len(),
{
    if s.len() <= 1 {
    } else {
        let t = s.drop_last();
        assert(no_double_hyphen(t)) by {
            assert forall|i: int| 0 <= i && i + 1 < t.len() implies !(#[trigger] t[i] == '-' && t[i
                + 1] == '-') by {
                assert(t[i] == s[i] && t[i + 1] == s[i + 1]);
            }
        }
        lemma_no_double_collapsed_fixed(t);
        assert(!(s[s.len() - 2] == '-' && s[s.len() - 1] == '-'));
        assert(collapsed(s) == t.push(s.last()));
        assert(t.push(s.last()) =~= s);
    }
}

/// Deriving a slug twice gives the same result as deriving it once.
pub proof fn lemma_slug_idempotent(s: Seq<char>)
    ensures
        slug(slug(s)) == slug(s),
{
    lemma_slug_wf(s);
    lemma_wf_fixed(slug(s));
}

/// Relies on String::push: appends the character to the end of the
/// string.
#[verifier::external_body]
pub(crate) fn push_char(s: &mut String, c: char)
    ensures
        final(s)@ == old(s)@.push(c),
{
    s.push(c);
}

fn map_char_exec(c: char) -> (r: char)
    ensures
        r == map_char(c),
{
    if ('a' <= c && c <= 'z') || ('0' <= c && c <= '9') {
        c
    } else if 'A' <= c && c <= 'Z' {
        ((c as u8) + 32) as char
    } else {
        '-'
    }
}

/// Derive the slug of `text`: lowercase, map non-alphanumerics to
/// hyphens, collapse hyphen runs, trim hyphens from both ends.
pub fn generate_id(text: &str) -> (r: String)
    ensures
        r@ == slug(text@),
{
    let n = text.unicode_len();
    let mut mapped_v: Vec<char> = Vec::new();
    let mut i: usize = 0;
    while i < n
        invariant
            i <= n,
            n == text@.len(),
            mapped_v@ == mapped(text@).take(i as int),
        decreases n - i,
    {
        let c = text.get_char(i);
        let d = map_char_exec(c);
        mapped_v.push(d);
        proof {
            assert(mapped(text@).take(i + 1 as int) =~= mapped(text@).take(i as int).push(
                map_char(text@[i as int]),
            ));
        }
        i += 1;
    }
    proof {
        assert(mapped(text@).take(n as int) =~= mapped(text@));
    }
    let mut coll: Vec<char> = Vec::new();
    let mut j: usize = 0;
    while j < mapped_v.len()
        invariant
            j <= mapped_v.len(),
            mapped_v@ == mapped(text@),
            coll@ == collapsed(mapped_v@.take(j as int)),
        decreases mapped_v.len() - j,
    {
        let c = mapped_v[j];
        let skip = c == '-' && j > 0 && mapped_v[j - 1] == '-';
        proof {
            let t = mapped_v@.take(j + 1 as int);
            assert(t.drop_last() =~= mapped_v@.take(j as int));
            assert(t.last() == mapped_v@[j as int]);
            if j > 0 {
                assert(t[t.len() - 2] == mapped_v@[j - 1]);
            }
        }
        if !skip {
            coll.push(c);
        }
        j += 1;
    }
    proof {
        assert(mapped_v@.take(mapped_v@.len() as int) =~= mapped_v@);
    }
    let clen = coll.len();
    let lo: usize = if clen > 0 && coll[0] == '-' {
        1
    } else {
        0
    };
    let hi: usize = if clen > lo && coll[clen - 1] == '-' {
        clen - 1
    } else {
        clen
    };
    let mut out = String::new();
    let mut k: usize = lo;
    while k < hi
        invariant
            lo <= k <= hi <= coll.len(),
            out@ == coll@.subrange(lo as int, k as int),
        decreases hi - k,
    {
        let c = coll[k];
        push_char(&mut out, c);
        proof {
            assert(coll@.subrange(lo as int, k + 1 as int) =~= coll@.subrange(
                lo as int,
                k as int,
            ).push(coll@[k as int]));
        }
        k += 1;
    }
    proof {
        assert(out@ =~= trimmed(coll@));
    }
    out
}

} // verus!
