//! Helpers over characters and strings, and the `std` string conversions
//! that the library rests on.
use vstd::prelude::*;

verus! {

/// The characters of `s`, in order.
pub fn chars_of(s: &str) -> (r: Vec<char>)
    ensures
        r@ == s@,
{
    let mut v: Vec<char> = Vec::new();
    for c in it: s.chars()
        invariant
            v@ == it.seq().take(it.index() as int),
    {
        v.push(c);
    }
    proof {
        broadcast use vstd::string::axiom_spec_iter;
    }
    assert(v@ =~= s@);
    v
}

/// Whether `a` and `b` hold the same characters.
pub fn same_text(a: &str, b: &str) -> (r: bool)
    ensures
        r == (a@ == b@),
{
    let x = chars_of(a);
    let y = chars_of(b);
    if x.len() != y.len() {
        return false;
    }
    let mut i: usize = 0;
    while i < x.len()
        invariant
            x@ == a@,
            y@ == b@,
            x@.len() == y@.len(),
            i <= x@.len(),
            forall|j: int| 0 <= j < i ==> x@[j] == y@[j],
        decreases x@.len() - i,
    {
        if x[i] != y[i] {
            return false;
        }
        i = i + 1;
    }
    assert(x@ =~= y@);
    true
}

/// How many of `chars` satisfy `p`, counted from the front.
pub open spec fn count_where(chars: Seq<char>, p: spec_fn(char) -> bool) -> nat
    decreases chars.len(),
{
    if chars.len() == 0 {
        0
    } else {
        count_where(chars.drop_last(), p) + if p(chars.last()) {
            1nat
        } else {
            0nat
        }
    }
}

/// Counting over a prefix one character longer adds that character's share.
pub proof fn lemma_count_where_step(chars: Seq<char>, p: spec_fn(char) -> bool, i: int)
    requires
        0 <= i < chars.len(),
    ensures
        count_where(chars.take(i + 1), p) == count_where(chars.take(i), p) + if p(chars[i]) {
            1nat
        } else {
            0nat
        },
{
    assert(chars.take(i + 1).drop_last() =~= chars.take(i));
}

/// A count never exceeds the number of characters counted.
pub proof fn lemma_count_where_le_len(chars: Seq<char>, p: spec_fn(char) -> bool)
    ensures
        count_where(chars, p) <= chars.len(),
    decreases chars.len(),
{
    if chars.len() > 0 {
        lemma_count_where_le_len(chars.drop_last(), p);
    }
}

/// A character that satisfies `p` is counted.
pub proof fn lemma_count_where_positive(chars: Seq<char>, p: spec_fn(char) -> bool, k: int)
    requires
        0 <= k < chars.len(),
        p(chars[k]),
    ensures
        count_where(chars, p) >= 1,
    decreases chars.len(),
{
    if k < chars.len() - 1 {
        lemma_count_where_positive(chars.drop_last(), p, k);
    }
}

/// `<str as Debug>::fmt` through `format!`: the quoted, escaped form of `s`, as
/// [`debug_quoted`] names it.
#[verifier::external_body]
pub(crate) fn debug_string(s: &str) -> (r: String)
    ensures
        r@ == debug_quoted(s@),
{
    format!("{s:?}")
}

/// What `<str as Debug>::fmt` writes for a string: the string in double quotes
/// with quotes, backslashes and control characters escaped.
pub uninterp spec fn debug_quoted(s: Seq<char>) -> Seq<char>;

/// `FromIterator<char> for String`: the string of the characters `chars`.
#[verifier::external_body]
pub(crate) fn string_from_chars(chars: &[char]) -> (r: String)
    ensures
        r@ == chars@,
{
    chars.iter().collect()
}

/// `std::str::from_utf8(bytes).ok()`: the string whose UTF-8 bytes are
/// `bytes`, when they are well-formed UTF-8; `None` otherwise.
#[verifier::external_body]
pub(crate) fn utf8_str<'a>(bytes: &'a [u8]) -> (r: Option<&'a str>)
    ensures
        r is Some <==> vstd::utf8::valid_utf8(bytes@),
        r matches Some(s) ==> vstd::utf8::encode_utf8(s@) == bytes@,
{
    std::str::from_utf8(bytes).ok()
}

} // verus!
