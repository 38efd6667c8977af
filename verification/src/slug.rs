//! Slug derivation: a project name is transliterated to ASCII, lowercased,
//! and every run of non-alphanumeric characters becomes a single hyphen, with
//! no hyphen at either end. Distinct names may collapse to the same slug, so
//! a slug cannot be turned back into the name it came from.

use vstd::prelude::*;
use crate::text::{all_ascii_bytes, ascii_string, bytes_of_chars, chars_of_bytes,
    lemma_ascii_chars_round_trip, lemma_ascii_round_trip};

verus! {

/// The hyphen byte that separates slug segments.
pub const DASH: u8 = 45;

/// The ASCII transliteration of a character sequence, as `unidecode` computes
/// it. Which bytes a non-ASCII character turns into is fixed by that crate's
/// tables; callers rely only on the facts stated where the call is made.
pub uninterp spec fn transliterate_of(s: Seq<char>) -> Seq<u8>;

/// Relies on `unidecode::unidecode`: the result is pure ASCII, and every
/// ASCII character is mapped to itself.
#[verifier::external_body]
fn transliterate(s: &str) -> (r: Vec<u8>)
    ensures
        r@ == transliterate_of(s@),
        all_ascii_bytes(r@),
        vstd::utf8::is_ascii_chars(s@) ==> r@ == bytes_of_chars(s@),
{
    unidecode::unidecode(s).into_bytes()
}

/// Lowercase ASCII letter or digit.
pub open spec fn is_lower_alnum(b: u8) -> bool {
    (97 <= b && b <= 122) || (48 <= b && b <= 57)
}

/// ASCII letter or digit.
pub open spec fn is_alnum(b: u8) -> bool {
    (97 <= b && b <= 122) || (65 <= b && b <= 90) || (48 <= b && b <= 57)
}

/// ASCII lowercasing of one byte.
pub open spec fn lower_of(b: u8) -> u8 {
    if 65 <= b && b <= 90 {
        (b + 32) as u8
    } else {
        b
    }
}

/// Each alphanumeric byte lowercased, every other byte replaced by a hyphen.
pub open spec fn dashify(s: Seq<u8>) -> Seq<u8> {
    s.map_values(
        |b: u8|
            if is_alnum(b) {
                lower_of(b)
            } else {
                DASH
            },
    )
}

/// Left-to-right collapse of hyphen runs: a hyphen is kept only after a
/// non-hyphen byte, so the result never starts with a hyphen and never holds
/// two in a row, though it may still end with one.
pub open spec fn collapse_runs(s: Seq<u8>) -> Seq<u8>
    decreases s.len(),
{
    if s.len() == 0 {
        Seq::empty()
    } else {
        let p = collapse_runs(s.drop_last());
        let b = s.last();
        if b != DASH {
            p.push(b)
        } else if p.len() == 0 || p.last() == DASH {
            p
        } else {
            p.push(DASH)
        }
    }
}

/// The sequence without a single trailing hyphen, if it ends with one.
pub open spec fn strip_trailing_dash(s: Seq<u8>) -> Seq<u8> {
    if s.len() > 0 && s.last() == DASH {
        s.drop_last()
    } else {
        s
    }
}

/// The full byte-level normalisation applied after transliteration.
pub open spec fn normalize(s: Seq<u8>) -> Seq<u8> {
    strip_trailing_dash(collapse_runs(dashify(s)))
}

/// The slug of a project name.
pub open spec fn slug_of(name: Seq<char>) -> Seq<char> {
    chars_of_bytes(normalize(transliterate_of(name)))
}

/// A well-formed slug at the byte level: lowercase alphanumerics and single
/// hyphens, none at either end.
pub open spec fn slug_wf_bytes(s: Seq<u8>) -> bool {
    &&& forall|i: int| 0 <= i < s.len() ==> is_lower_alnum(#[trigger] s[i]) || s[i] == DASH
    &&& s.len() > 0 ==> s[0] != DASH && s.last() != DASH
    &&& forall|i: int| 0 <= i < s.len() - 1 ==> !(#[trigger] s[i] == DASH && s[i + 1] == DASH)
}

/// A well-formed slug: ASCII characters whose bytes form a well-formed slug.
pub open spec fn is_slug(s: Seq<char>) -> bool {
    vstd::utf8::is_ascii_chars(s) && slug_wf_bytes(bytes_of_chars(s))
}

/// Shape of the collapse: only bytes of the input's alphabet, no leading
/// hyphen, no two hyphens in a row.
proof fn lemma_collapse_shape(s: Seq<u8>)
    requires
        forall|i: int| 0 <= i < s.len() ==> is_lower_alnum(#[trigger] s[i]) || s[i] == DASH,
    ensures
        forall|i: int|
            0 <= i < collapse_runs(s).len() ==> is_lower_alnum(#[trigger] collapse_runs(s)[i])
                || collapse_runs(s)[i] == DASH,
        collapse_runs(s).len() > 0 ==> collapse_runs(s)[0] != DASH,
        forall|i: int|
            0 <= i < collapse_runs(s).len() - 1 ==> !(#[trigger] collapse_runs(s)[i] == DASH
                && collapse_runs(s)[i + 1] == DASH),
    decreases s.len(),
{
    if s.len() > 0 {
        assert(forall|i: int|
            0 <= i < s.drop_last().len() ==> is_lower_alnum(#[trigger] s.drop_last()[i])
                || s.drop_last()[i] == DASH);
        lemma_collapse_shape(s.drop_last());
    }
}

/// The normalisation always yields a well-formed slug.
pub proof fn lemma_normalize_wf(s: Seq<u8>)
    requires
        forall|i: int| 0 <= i < s.len() ==> is_lower_alnum(#[trigger] s[i]) || s[i] == DASH,
    ensures
        slug_wf_bytes(strip_trailing_dash(collapse_runs(s))),
{
    lemma_collapse_shape(s);
    let c = collapse_runs(s);
    let r = strip_trailing_dash(c);
    if c.len() > 0 && c.last() == DASH {
        assert(r =~= c.drop_last());
        if r.len() > 0 {
            assert(!(c[c.len() - 2] == DASH && c[c.len() - 1] == DASH));
            assert(r.last() == c[c.len() - 2]);
        }
    }
}

/// A sequence with no leading hyphen and no hyphen run is left unchanged by
/// the collapse.
proof fn lemma_collapse_fixed(s: Seq<u8>)
    requires
        s.len() > 0 ==> s[0] != DASH,
        forall|i: int| 0 <= i < s.len() - 1 ==> !(#[trigger] s[i] == DASH && s[i + 1] == DASH),
    ensures
        collapse_runs(s) =~= s,
    decreases s.len(),
{
    if s.len() > 0 {
        lemma_collapse_fixed(s.drop_last());
        if s.last() == DASH {
            assert(s.len() >= 2);
            assert(!(s[s.len() - 2] == DASH && s[s.len() - 1] == DASH));
            assert(collapse_runs(s.drop_last()).last() == s[s.len() - 2]);
        }
    }
}

/// A well-formed slug is a fixed point of the normalisation.
pub proof fn lemma_normalize_fixed_point(s: Seq<u8>)
    requires
        slug_wf_bytes(s),
    ensures
        normalize(s) == s,
{
    assert(dashify(s) =~= s);
    lemma_collapse_fixed(s);
    assert(normalize(s) =~= s);
}

/// The byte-level normalisation is idempotent: applying it twice gives the
/// same result as applying it once.
pub proof fn lemma_normalize_idempotent(s: Seq<u8>)
    ensures
        normalize(normalize(s)) == normalize(s),
{
    assert(forall|i: int|
        0 <= i < dashify(s).len() ==> is_lower_alnum(#[trigger] dashify(s)[i]) || dashify(s)[i]
            == DASH);
    lemma_normalize_wf(dashify(s));
    lemma_normalize_fixed_point(normalize(s));
}

fn byte_is_alnum(b: u8) -> (r: bool)
    ensures
        r == is_alnum(b),
{
    (97 <= b && b <= 122) || (65 <= b && b <= 90) || (48 <= b && b <= 57)
}

fn byte_lower(b: u8) -> (r: u8)
    ensures
        r == lower_of(b),
{
    if 65 <= b && b <= 90 {
        b + 32
    } else {
        b
    }
}

/// Computes the slug of `name`. The result is always a well-formed slug; an
/// ASCII name goes through the fully-specified normalisation alone, so its
/// slug is a computable function of the name; and a name that already is a
/// slug comes back unchanged — deriving a slug is idempotent.
pub fn make_slug(name: &str) -> (r: String)
    ensures
        r@ == slug_of(name@),
        is_slug(r@),
        vstd::utf8::is_ascii_chars(name@) ==> r@ == chars_of_bytes(normalize(bytes_of_chars(name@))),
        is_slug(name@) ==> r@ == name@,
{
    let t = transliterate(name);
    let n = t.len();
    let mut out: Vec<u8> = Vec::new();
    let mut i: usize = 0;
    while i < n
        invariant
            n == t@.len(),
            0 <= i <= n,
            forall|j: int| 0 <= j < t@.len() ==> #[trigger] t@[j] < 128,
            out@ =~= collapse_runs(dashify(t@.subrange(0, i as int))),
            forall|j: int|
                0 <= j < out@.len() ==> is_lower_alnum(#[trigger] out@[j]) || out@[j] == DASH,
        decreases n - i,
    {
        let b = t[i];
        proof {
            assert(dashify(t@.subrange(0, i + 1)).drop_last() =~= dashify(
                t@.subrange(0, i as int),
            ));
            assert(dashify(t@.subrange(0, i + 1)).last() == (if is_alnum(t@[i as int]) {
                lower_of(t@[i as int])
            } else {
                DASH
            }));
        }
        if byte_is_alnum(b) {
            out.push(byte_lower(b));
        } else {
            let m = out.len();
            if m > 0 && out[m - 1] != DASH {
                out.push(DASH);
            }
        }
        i = i + 1;
    }
    proof {
        assert(t@.subrange(0, n as int) =~= t@);
    }
    if out.len() > 0 && out[out.len() - 1] == DASH {
        out.pop();
    }
    proof {
        assert(out@ =~= normalize(t@));
        assert(forall|j: int|
            0 <= j < dashify(t@).len() ==> is_lower_alnum(#[trigger] dashify(t@)[j]) || dashify(
                t@,
            )[j] == DASH);
        lemma_normalize_wf(dashify(t@));
        lemma_ascii_round_trip(out@);
        if is_slug(name@) {
            lemma_ascii_chars_round_trip(name@);
            lemma_normalize_fixed_point(bytes_of_chars(name@));
        }
    }
    ascii_string(out)
}

} // verus!
