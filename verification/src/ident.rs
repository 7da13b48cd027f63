//! Identifier normalization.
//!
//! The remote service addresses pages and blocks by identifiers of 32
//! hexadecimal characters, written in a dashed five-group form
//! (8-4-4-4-12). [`to_dashed_id`] canonicalizes an identifier given with or
//! without dashes into that form.

use vstd::prelude::*;
use vstd::string::*;

use crate::error::ApiError;
use crate::outside::push_char;

verus! {

/// The identifier with every dash removed, other characters kept in order.
pub open spec fn strip_dashes(s: Seq<char>) -> Seq<char>
    decreases s.len(),
{
    if s.len() == 0 {
        Seq::empty()
    } else {
        let rest = strip_dashes(s.drop_first());
        if s.first() == '-' {
            rest
        } else {
            seq![s.first()] + rest
        }
    }
}

/// A 32-character identifier regrouped as 8-4-4-4-12 with dashes between
/// the groups.
pub open spec fn dashed_form(t: Seq<char>) -> Seq<char> {
    t.subrange(0, 8) + seq!['-'] + t.subrange(8, 12) + seq!['-'] + t.subrange(12, 16) + seq!['-']
        + t.subrange(16, 20) + seq!['-'] + t.subrange(20, t.len() as int)
}

pub open spec fn is_lower_hex(c: char) -> bool {
    ('0' <= c && c <= '9') || ('a' <= c && c <= 'f')
}

/// The dashed five-group identifier form: 36 characters, dashes exactly at
/// positions 8, 13, 18 and 23, lower-case hex digits elsewhere.
pub open spec fn is_dashed_id(s: Seq<char>) -> bool {
    &&& s.len() == 36
    &&& s[8] == '-'
    &&& s[13] == '-'
    &&& s[18] == '-'
    &&& s[23] == '-'
    &&& forall|i: int|
        0 <= i < 36 && i != 8 && i != 13 && i != 18 && i != 23 ==> is_lower_hex(#[trigger] s[i])
}

pub proof fn lemma_strip_dashes_concat(a: Seq<char>, b: Seq<char>)
    ensures
        strip_dashes(a + b) == strip_dashes(a) + strip_dashes(b),
    decreases a.len(),
{
    if a.len() == 0 {
        assert(a + b =~= b);
        assert(strip_dashes(a) + strip_dashes(b) =~= strip_dashes(b));
    } else {
        assert((a + b).drop_first() =~= a.drop_first() + b);
        lemma_strip_dashes_concat(a.drop_first(), b);
        if a.first() == '-' {
        } else {
            assert(seq![a.first()] + (strip_dashes(a.drop_first()) + strip_dashes(b)) =~= (
            seq![a.first()] + strip_dashes(a.drop_first())) + strip_dashes(b));
        }
    }
}

/// A seq with no dashes at all.
pub open spec fn dash_free(s: Seq<char>) -> bool {
    forall|i: int| 0 <= i < s.len() ==> #[trigger] s[i] != '-'
}

pub proof fn lemma_strip_dashes_singleton(c: char)
    ensures
        strip_dashes(seq![c]) == if c == '-' {
            Seq::<char>::empty()
        } else {
            seq![c]
        },
{
    assert(seq![c].drop_first() =~= Seq::<char>::empty());
    assert(strip_dashes(Seq::<char>::empty()) =~= Seq::<char>::empty());
    if c != '-' {
        assert(seq![c] + Seq::<char>::empty() =~= seq![c]);
    }
}

pub proof fn lemma_strip_dashes_dash_free(s: Seq<char>)
    ensures
        dash_free(strip_dashes(s)),
    decreases s.len(),
{
    if s.len() == 0 {
    } else {
        lemma_strip_dashes_dash_free(s.drop_first());
    }
}

pub proof fn lemma_strip_dashes_identity(s: Seq<char>)
    requires
        dash_free(s),
    ensures
        strip_dashes(s) == s,
    decreases s.len(),
{
    if s.len() == 0 {
        assert(strip_dashes(s) =~= s);
    } else {
        assert(dash_free(s.drop_first()));
        lemma_strip_dashes_identity(s.drop_first());
        assert(seq![s.first()] + s.drop_first() =~= s);
    }
}

/// Normalization is idempotent: stripping the dashes that `dashed_form`
/// inserted gives back exactly the 32 characters they were inserted into,
/// so normalizing a second time reproduces the same dashed identifier.
pub proof fn lemma_normalize_idempotent(s: Seq<char>)
    requires
        strip_dashes(s).len() == 32,
    ensures
        strip_dashes(dashed_form(strip_dashes(s))) == strip_dashes(s),
        dashed_form(strip_dashes(dashed_form(strip_dashes(s)))) == dashed_form(strip_dashes(s)),
{
    let t = strip_dashes(s);
    lemma_strip_dashes_dash_free(s);
    lemma_strip_dashes_of_regrouped(t);
}

/// Stripping the dashes out of the regrouped form of a dash-free
/// 32-character seq recovers that seq.
pub proof fn lemma_strip_dashes_of_regrouped(t: Seq<char>)
    requires
        t.len() == 32,
        dash_free(t),
    ensures
        strip_dashes(dashed_form(t)) == t,
{
    let d = seq!['-'];
    let g1 = t.subrange(0, 8);
    let g2 = t.subrange(8, 12);
    let g3 = t.subrange(12, 16);
    let g4 = t.subrange(16, 20);
    let g5 = t.subrange(20, 32);
    lemma_strip_dashes_singleton('-');
    assert(dash_free(g1) && dash_free(g2) && dash_free(g3) && dash_free(g4) && dash_free(g5));
    lemma_strip_dashes_identity(g1);
    lemma_strip_dashes_identity(g2);
    lemma_strip_dashes_identity(g3);
    lemma_strip_dashes_identity(g4);
    lemma_strip_dashes_identity(g5);
    let s4 = d + g5;
    let s3 = g4 + s4;
    let s2 = d + s3;
    let s1 = g3 + s2;
    let s0 = d + s1;
    let u2 = g2 + s0;
    let u1 = d + u2;
    let u0 = g1 + u1;
    lemma_strip_dashes_concat(g1, u1);
    lemma_strip_dashes_concat(d, u2);
    lemma_strip_dashes_concat(g2, s0);
    lemma_strip_dashes_concat(d, s1);
    lemma_strip_dashes_concat(g3, s2);
    lemma_strip_dashes_concat(d, s3);
    lemma_strip_dashes_concat(g4, s4);
    lemma_strip_dashes_concat(d, g5);
    assert(dashed_form(t) =~= u0);
    assert(strip_dashes(u0) =~= t);
    assert(strip_dashes(dashed_form(t)) == strip_dashes(u0));
}

/// The dashed form of a 32-character identifier is 36 characters long, with
/// dashes at positions 8, 13, 18 and 23 and the original characters in
/// order everywhere else.
pub proof fn lemma_dashed_form_shape(t: Seq<char>)
    requires
        t.len() == 32,
    ensures
        dashed_form(t).len() == 36,
        dashed_form(t)[8] == '-',
        dashed_form(t)[13] == '-',
        dashed_form(t)[18] == '-',
        dashed_form(t)[23] == '-',
        forall|i: int| 0 <= i < 8 ==> #[trigger] dashed_form(t)[i] == t[i],
        forall|i: int| 9 <= i < 13 ==> #[trigger] dashed_form(t)[i] == t[i - 1],
        forall|i: int| 14 <= i < 18 ==> #[trigger] dashed_form(t)[i] == t[i - 2],
        forall|i: int| 19 <= i < 23 ==> #[trigger] dashed_form(t)[i] == t[i - 3],
        forall|i: int| 24 <= i < 36 ==> #[trigger] dashed_form(t)[i] == t[i - 4],
{
}

/// Canonicalizes an identifier into the dashed five-group form the remote
/// service requires. All existing dashes are stripped first; exactly 32
/// characters must remain, else the input is rejected as an invalid
/// identifier.
pub fn to_dashed_id(id: &str) -> (r: Result<String, ApiError>)
    ensures
        strip_dashes(id@).len() == 32 ==> (r matches Ok(s) && s@ == dashed_form(strip_dashes(id@))),
        strip_dashes(id@).len() != 32 ==> r == Err::<String, ApiError>(ApiError::InvalidIdentifier),
{
    let n = id.unicode_len();
    let mut stripped = String::new();
    let mut i: usize = 0;
    while i < n
        invariant
            n == id@.len(),
            i <= n,
            stripped@ == strip_dashes(id@.take(i as int)),
        decreases n - i,
    {
        let c = id.get_char(i);
        proof {
            assert(id@.take(i + 1) =~= id@.take(i as int) + seq![id@[i as int]]);
            lemma_strip_dashes_concat(id@.take(i as int), seq![id@[i as int]]);
            lemma_strip_dashes_singleton(id@[i as int]);
            if id@[i as int] != '-' {
                assert(stripped@ + strip_dashes(seq![id@[i as int]]) =~= stripped@.push(
                id@[i as int]));
            } else {
                assert(stripped@ + strip_dashes(seq![id@[i as int]]) =~= stripped@);
            }
        }
        if c != '-' {
            push_char(&mut stripped, c);
        }
        i += 1;
    }
    proof {
        assert(id@.take(n as int) =~= id@);
    }
    if stripped.unicode_len() != 32 {
        return Err(ApiError::InvalidIdentifier);
    }
    let s = stripped.as_str();
    let g1 = s.substring_char(0, 8);
    let g2 = s.substring_char(8, 12);
    let g3 = s.substring_char(12, 16);
    let g4 = s.substring_char(16, 20);
    let g5 = s.substring_char(20, 32);
    let mut out = g1.to_owned();
    out.append("-");
    out.append(g2);
    out.append("-");
    out.append(g3);
    out.append("-");
    out.append(g4);
    out.append("-");
    out.append(g5);
    proof {
        reveal_strlit("-");
        assert("-"@ =~= seq!['-']);
        assert(out@ =~= dashed_form(strip_dashes(id@)));
    }
    Ok(out)
}

} // verus!
