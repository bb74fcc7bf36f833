//! Text helpers: byte-wise ordering of strings and membership in a list of
//! strings.

use vstd::prelude::*;
use vstd::string::StrSliceExecFns;
use vstd::utf8::encode_utf8;

verus! {

/// Whether a character is white space, that is, has the Unicode property
/// `White_Space`.
pub open spec fn is_white_space(c: char) -> bool {
    let u = c as u32;
    ||| 0x09 <= u <= 0x0D
    ||| u == 0x20
    ||| u == 0x85
    ||| u == 0xA0
    ||| u == 0x1680
    ||| 0x2000 <= u <= 0x200A
    ||| u == 0x2028
    ||| u == 0x2029
    ||| u == 0x202F
    ||| u == 0x205F
    ||| u == 0x3000
}

/// The number of white-space characters that a text starts with.
pub open spec fn leading_space(text: Seq<char>) -> nat
    decreases text.len(),
{
    if text.len() == 0 || !is_white_space(text[0]) {
        0
    } else {
        1 + leading_space(text.skip(1))
    }
}

/// The number of white-space characters that a text ends with.
pub open spec fn trailing_space(text: Seq<char>) -> nat
    decreases text.len(),
{
    if text.len() == 0 || !is_white_space(text.last()) {
        0
    } else {
        1 + trailing_space(text.drop_last())
    }
}

/// A text without the white space at its two ends.
pub open spec fn trimmed_text(text: Seq<char>) -> Seq<char> {
    if leading_space(text) == text.len() {
        Seq::empty()
    } else {
        text.subrange(leading_space(text) as int, text.len() - trailing_space(text))
    }
}

/// A position before which a text holds only white space, and which is
/// its end or holds none, is the number of its leading white space.
pub proof fn leading_space_is(text: Seq<char>, n: int)
    requires
        0 <= n <= text.len(),
        forall|k: int| 0 <= k < n ==> is_white_space(#[trigger] text[k]),
        n == text.len() || !is_white_space(text[n]),
    ensures
        leading_space(text) == n,
    decreases n,
{
    if n > 0 {
        let rest = text.skip(1);
        assert forall|k: int| 0 <= k < n - 1 implies is_white_space(#[trigger] rest[k]) by {
            assert(rest[k] == text[k + 1]);
        }
        leading_space_is(rest, n - 1);
    }
}

/// A position from which on a text holds only white space, and before
/// which it starts or holds none, leaves the number of its trailing white
/// space behind it.
pub proof fn trailing_space_is(text: Seq<char>, n: int)
    requires
        0 <= n <= text.len(),
        forall|k: int| n <= k < text.len() ==> is_white_space(#[trigger] text[k]),
        n == 0 || !is_white_space(text[n - 1]),
    ensures
        trailing_space(text) == text.len() - n,
    decreases text.len() - n,
{
    if n < text.len() {
        let rest = text.drop_last();
        assert forall|k: int| n <= k < rest.len() implies is_white_space(#[trigger] rest[k]) by {
            assert(rest[k] == text[k]);
        }
        trailing_space_is(rest, n);
    }
}

/// The views of a list of strings, one per entry.
pub open spec fn texts(items: Seq<String>) -> Seq<Seq<char>> {
    Seq::new(items.len(), |i: int| items[i]@)
}

/// Lexicographic order on byte strings: `a` sorts strictly before `b`.
pub open spec fn bytes_lt(a: Seq<u8>, b: Seq<u8>) -> bool
    decreases a.len(),
{
    if b.len() == 0 {
        false
    } else if a.len() == 0 {
        true
    } else if a[0] != b[0] {
        a[0] < b[0]
    } else {
        bytes_lt(a.skip(1), b.skip(1))
    }
}

/// The order of two texts as strings: byte-wise on their UTF-8 encodings.
pub open spec fn text_lt(a: Seq<char>, b: Seq<char>) -> bool {
    bytes_lt(encode_utf8(a), encode_utf8(b))
}

/// `a` sorts before `b` or equals it.
pub open spec fn text_le(a: Seq<char>, b: Seq<char>) -> bool {
    !text_lt(b, a)
}

/// Whether `value` lies in the closed range from `low` to `high`.
pub open spec fn text_between(value: Seq<char>, low: Seq<char>, high: Seq<char>) -> bool {
    text_le(low, value) && text_le(value, high)
}

/// The view of a string that may be absent.
pub open spec fn opt_text(value: Option<String>) -> Option<Seq<char>> {
    match value {
        Some(t) => Some(t@),
        None => None,
    }
}

/// Whether a character is white space.
pub fn is_space(c: char) -> (result: bool)
    ensures
        result == is_white_space(c),
{
    let u: u32 = c as u32;
    (0x09 <= u && u <= 0x0D) || u == 0x20 || u == 0x85 || u == 0xA0 || u == 0x1680 || (0x2000 <= u
        && u <= 0x200A) || u == 0x2028 || u == 0x2029 || u == 0x202F || u == 0x205F || u == 0x3000
}

/// The text without the white space at its two ends.
pub fn trim_str(text: &str) -> (result: &str)
    ensures
        result@ == trimmed_text(text@),
{
    let n: usize = text.unicode_len();
    let mut start: usize = 0;
    while start < n && is_space(text.get_char(start))
        invariant
            n == text@.len(),
            start <= n,
            forall|k: int| 0 <= k < start ==> is_white_space(#[trigger] text@[k]),
        decreases n - start,
    {
        start += 1;
    }
    proof {
        leading_space_is(text@, start as int);
    }
    if start == n {
        let empty = text.substring_char(0, 0);
        assert(empty@ =~= Seq::<char>::empty());
        return empty;
    }
    let mut end: usize = n;
    while end > start + 1 && is_space(text.get_char(end - 1))
        invariant
            n == text@.len(),
            start < end <= n,
            !is_white_space(text@[start as int]),
            forall|k: int| end <= k < n ==> is_white_space(#[trigger] text@[k]),
        decreases end,
    {
        end -= 1;
    }
    proof {
        trailing_space_is(text@, end as int);
    }
    text.substring_char(start, end)
}

/// A copy of a string that may be absent.
pub fn copy_opt_text(value: &Option<String>) -> (result: Option<String>)
    ensures
        opt_text(result) == opt_text(*value),
{
    match value {
        Some(t) => Some(t.clone()),
        None => None,
    }
}

/// Strict byte-wise comparison of two strings.
pub fn str_lt(a: &str, b: &str) -> (result: bool)
    ensures
        result == text_lt(a@, b@),
{
    let x = a.as_bytes();
    let y = b.as_bytes();
    let mut i: usize = 0;
    assert(x@.skip(0) =~= x@ && y@.skip(0) =~= y@);
    while i < x.len() && i < y.len()
        invariant
            x@ == encode_utf8(a@),
            y@ == encode_utf8(b@),
            i <= x@.len(),
            i <= y@.len(),
            bytes_lt(x@, y@) == bytes_lt(x@.skip(i as int), y@.skip(i as int)),
        decreases x@.len() - i,
    {
        proof {
            let xs = x@.skip(i as int);
            let ys = y@.skip(i as int);
            assert(xs[0] == x@[i as int]);
            assert(ys[0] == y@[i as int]);
            assert(xs.skip(1) =~= x@.skip(i as int + 1));
            assert(ys.skip(1) =~= y@.skip(i as int + 1));
        }
        if x[i] != y[i] {
            return x[i] < y[i];
        }
        i += 1;
    }
    proof {
        assert(x@.skip(i as int).len() == x@.len() - i);
        assert(y@.skip(i as int).len() == y@.len() - i);
    }
    i < y.len()
}

/// Non-strict byte-wise comparison of two strings.
pub fn str_le(a: &str, b: &str) -> (result: bool)
    ensures
        result == text_le(a@, b@),
{
    !str_lt(b, a)
}

/// Whether `value` lies in the closed range from `low` to `high`.
pub fn str_between(value: &str, low: &str, high: &str) -> (result: bool)
    ensures
        result == text_between(value@, low@, high@),
{
    str_le(low, value) && str_le(value, high)
}

/// Whether two strings hold the same text.
pub fn str_eq(a: &str, b: &str) -> (result: bool)
    ensures
        result == (a@ == b@),
{
    let x = a.as_bytes();
    let y = b.as_bytes();
    if x.len() != y.len() {
        return false;
    }
    let mut i: usize = 0;
    while i < x.len()
        invariant
            x@ == encode_utf8(a@),
            y@ == encode_utf8(b@),
            i <= x@.len(),
            x@.len() == y@.len(),
            forall|k: int| 0 <= k < i ==> x@[k] == y@[k],
        decreases x@.len() - i,
    {
        if x[i] != y[i] {
            return false;
        }
        i += 1;
    }
    proof {
        assert(x@ =~= y@);
        vstd::utf8::encode_utf8_decode_utf8(a@);
        vstd::utf8::encode_utf8_decode_utf8(b@);
    }
    true
}

/// Whether `needle` occurs in `items`.
pub fn contains_text(items: &Vec<String>, needle: &str) -> (result: bool)
    ensures
        result == texts(items@).contains(needle@),
{
    let mut i: usize = 0;
    while i < items.len()
        invariant
            i <= items@.len(),
            forall|k: int| 0 <= k < i ==> texts(items@)[k] != needle@,
        decreases items@.len() - i,
    {
        if str_eq(items[i].as_str(), needle) {
            assert(texts(items@)[i as int] == needle@);
            return true;
        }
        i += 1;
    }
    false
}

/// A copy of a list of strings.
pub fn copy_texts(items: &Vec<String>) -> (result: Vec<String>)
    ensures
        texts(result@) == texts(items@),
{
    let mut out: Vec<String> = Vec::new();
    let mut i: usize = 0;
    while i < items.len()
        invariant
            i <= items@.len(),
            out@.len() == i,
            forall|k: int| 0 <= k < i ==> out@[k]@ == items@[k]@,
        decreases items@.len() - i,
    {
        out.push(items[i].clone());
        i += 1;
    }
    assert(texts(out@) =~= texts(items@));
    out
}

} // verus!
