//! Text utilities shared by the entity constructors: Unicode-whitespace
//! trimming and the ASCII byte/character correspondence used by the slug
//! machinery.

use vstd::prelude::*;
use vstd::string::StrSliceExecFns;

verus! {

/// The Unicode `White_Space` code points, the set `char::is_whitespace`
/// recognises and `str::trim` strips.
pub open spec fn is_whitespace_char(c: char) -> bool {
    let u = c as u32;
    (0x9 <= u && u <= 0xd) || u == 0x20 || u == 0x85 || u == 0xa0 || u == 0x1680 || (0x2000 <= u
        && u <= 0x200a) || u == 0x2028 || u == 0x2029 || u == 0x202f || u == 0x205f || u == 0x3000
}

/// Runtime test for [`is_whitespace_char`].
pub fn is_whitespace(c: char) -> (r: bool)
    ensures
        r == is_whitespace_char(c),
{
    let u = c as u32;
    (0x9 <= u && u <= 0xd) || u == 0x20 || u == 0x85 || u == 0xa0 || u == 0x1680 || (0x2000 <= u
        && u <= 0x200a) || u == 0x2028 || u == 0x2029 || u == 0x202f || u == 0x205f || u == 0x3000
}

/// The sequence without its leading whitespace.
pub open spec fn ltrim(s: Seq<char>) -> Seq<char>
    decreases s.len(),
{
    if s.len() == 0 {
        s
    } else if is_whitespace_char(s[0]) {
        ltrim(s.drop_first())
    } else {
        s
    }
}

/// The sequence without its trailing whitespace.
pub open spec fn rtrim(s: Seq<char>) -> Seq<char>
    decreases s.len(),
{
    if s.len() == 0 {
        s
    } else if is_whitespace_char(s.last()) {
        rtrim(s.drop_last())
    } else {
        s
    }
}

/// The sequence without leading and trailing whitespace: what `str::trim`
/// leaves.
pub open spec fn trimmed(s: Seq<char>) -> Seq<char> {
    rtrim(ltrim(s))
}

proof fn lemma_ltrim_subrange(s: Seq<char>, lo: int)
    requires
        0 <= lo <= s.len(),
        forall|i: int| 0 <= i < lo ==> is_whitespace_char(s[i]),
        lo < s.len() ==> !is_whitespace_char(s[lo]),
    ensures
        ltrim(s) =~= s.subrange(lo, s.len() as int),
    decreases lo,
{
    if lo == 0 {
        if s.len() > 0 {
            assert(!is_whitespace_char(s[0]));
        }
    } else {
        assert(is_whitespace_char(s[0]));
        lemma_ltrim_subrange(s.drop_first(), lo - 1);
        assert(s.drop_first().subrange(lo - 1, s.drop_first().len() as int) =~= s.subrange(
            lo,
            s.len() as int,
        ));
    }
}

proof fn lemma_rtrim_subrange(s: Seq<char>, hi: int)
    requires
        0 <= hi <= s.len(),
        forall|i: int| hi <= i < s.len() ==> is_whitespace_char(s[i]),
        hi > 0 ==> !is_whitespace_char(s[hi - 1]),
    ensures
        rtrim(s) =~= s.subrange(0, hi),
    decreases s.len() - hi,
{
    if hi == s.len() {
        if s.len() > 0 {
            assert(!is_whitespace_char(s.last()));
        }
    } else {
        assert(is_whitespace_char(s.last()));
        lemma_rtrim_subrange(s.drop_last(), hi);
    }
}

/// A copy of `name` with leading and trailing Unicode whitespace removed, as
/// `str::trim` would produce.
pub fn trim_text(name: &str) -> (r: String)
    ensures
        r@ == trimmed(name@),
{
    let n = name.unicode_len();
    let mut lo: usize = 0;
    while lo < n && is_whitespace(name.get_char(lo))
        invariant
            n == name@.len(),
            0 <= lo <= n,
            forall|i: int| 0 <= i < lo ==> is_whitespace_char(name@[i]),
        decreases n - lo,
    {
        lo = lo + 1;
    }
    let mut hi: usize = n;
    while hi > lo && is_whitespace(name.get_char(hi - 1))
        invariant
            n == name@.len(),
            0 <= lo <= hi <= n,
            forall|i: int| 0 <= i < lo ==> is_whitespace_char(name@[i]),
            lo < n ==> !is_whitespace_char(name@[lo as int]),
            forall|i: int| hi <= i < n ==> is_whitespace_char(name@[i]),
        decreases hi,
    {
        hi = hi - 1;
    }
    let core = name.substring_char(lo, hi);
    proof {
        lemma_ltrim_subrange(name@, lo as int);
        lemma_rtrim_subrange(ltrim(name@), hi - lo);
        assert(ltrim(name@).subrange(0, hi - lo) =~= name@.subrange(lo as int, hi as int));
    }
    String::from_str(core)
}

/// The characters a sequence of ASCII bytes stands for.
pub open spec fn chars_of_bytes(s: Seq<u8>) -> Seq<char> {
    Seq::new(s.len(), |i: int| s[i] as char)
}

/// The bytes of a sequence of ASCII characters.
pub open spec fn bytes_of_chars(s: Seq<char>) -> Seq<u8> {
    Seq::new(s.len(), |i: int| s[i] as u8)
}

/// Every byte is in the ASCII range.
pub open spec fn all_ascii_bytes(s: Seq<u8>) -> bool {
    forall|i: int| 0 <= i < s.len() ==> s[i] < 128
}

/// Round trip: the bytes of the characters of an ASCII byte sequence are the
/// bytes themselves, and the characters stay in the ASCII range.
pub proof fn lemma_ascii_round_trip(s: Seq<u8>)
    requires
        all_ascii_bytes(s),
    ensures
        bytes_of_chars(chars_of_bytes(s)) =~= s,
        vstd::utf8::is_ascii_chars(chars_of_bytes(s)),
{
}

/// Round trip in the other direction: the characters of the bytes of an
/// ASCII character sequence are the characters themselves.
pub proof fn lemma_ascii_chars_round_trip(s: Seq<char>)
    requires
        vstd::utf8::is_ascii_chars(s),
    ensures
        chars_of_bytes(bytes_of_chars(s)) =~= s,
        all_ascii_bytes(bytes_of_chars(s)),
{
}

/// Relies on `String::from_utf8`: ASCII bytes are valid UTF-8 and decode to
/// the characters with the same code points.
#[verifier::external_body]
pub fn ascii_string(bytes: Vec<u8>) -> (r: String)
    requires
        all_ascii_bytes(bytes@),
    ensures
        r@ == chars_of_bytes(bytes@),
{
    String::from_utf8(bytes).unwrap_or_default()
}

} // verus!
