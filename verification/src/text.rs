//! Small verified helpers over string slices, viewed as sequences of
//! characters.

use vstd::prelude::*;
use vstd::string::*;

verus! {

/// Collect the characters of a string slice.
pub fn to_chars(s: &str) -> (v: Vec<char>)
    ensures
        v@ == s@,
{
    let n = s.unicode_len();
    let mut v: Vec<char> = Vec::new();
    let mut i: usize = 0;
    while i < n
        invariant
            n == s@.len(),
            i <= n,
            v@ == s@.subrange(0, i as int),
        decreases n - i,
    {
        v.push(s.get_char(i));
        i = i + 1;
    }
    v
}

/// Test two string slices for equality.
pub fn str_eq(a: &str, b: &str) -> (r: bool)
    ensures
        r == (a@ == b@),
{
    let n = a.unicode_len();
    let m = b.unicode_len();
    if n != m {
        return false;
    }
    let av = to_chars(a);
    let bv = to_chars(b);
    let mut i: usize = 0;
    while i < n
        invariant
            n == m,
            av@ == a@,
            bv@ == b@,
            n == a@.len(),
            m == b@.len(),
            i <= n,
            a@.subrange(0, i as int) == b@.subrange(0, i as int),
        decreases n - i,
    {
        if av[i] != bv[i] {
            assert(a@[i as int] != b@[i as int]);
            return false;
        }
        assert(a@.subrange(0, i + 1) == a@.subrange(0, i as int).push(a@[i as int]));
        assert(b@.subrange(0, i + 1) == b@.subrange(0, i as int).push(b@[i as int]));
        i = i + 1;
    }
    assert(a@ == a@.subrange(0, n as int));
    assert(b@ == b@.subrange(0, n as int));
    true
}

} // verus!

verus! {

/// The number of bytes of the UTF-8 encoding of a character.
pub open spec fn utf8_width(c: char) -> int {
    let u = c as u32;
    if u < 0x80 {
        1
    } else if u < 0x800 {
        2
    } else if u < 0x10000 {
        3
    } else {
        4
    }
}

/// The byte offset of the character at index `i` of `s`.
pub open spec fn byte_offset(s: Seq<char>, i: int) -> int
    decreases i,
{
    if i <= 0 {
        0
    } else {
        byte_offset(s, i - 1) + utf8_width(s[i - 1])
    }
}

pub proof fn lemma_byte_offset_step(s: Seq<char>, i: int)
    requires
        0 <= i,
    ensures
        byte_offset(s, i + 1) == byte_offset(s, i) + utf8_width(s[i]),
        1 <= utf8_width(s[i]) <= 4,
{
}

/// The number of bytes of the UTF-8 encoding of a character.
pub fn char_len_utf8(c: char) -> (r: usize)
    ensures
        r == utf8_width(c),
{
    let u = c as u32;
    if u < 0x80 {
        1
    } else if u < 0x800 {
        2
    } else if u < 0x10000 {
        3
    } else {
        4
    }
}

} // verus!

verus! {

/// The number of bytes of the UTF-8 encoding of a character sequence.
pub open spec fn byte_len(s: Seq<char>) -> int
    decreases s.len(),
{
    if s.len() == 0 {
        0
    } else {
        utf8_width(s[0]) + byte_len(s.drop_first())
    }
}

pub proof fn lemma_byte_len_encode(s: Seq<char>)
    ensures
        byte_len(s) == vstd::utf8::encode_utf8(s).len(),
    decreases s.len(),
{
    if s.len() > 0 {
        lemma_byte_len_encode(s.drop_first());
        vstd::utf8::char_is_scalar(s[0]);
        assert(vstd::utf8::encode_scalar(s[0] as u32).len() == utf8_width(s[0]));
    }
}

proof fn lemma_byte_len_push(a: Seq<char>, c: char)
    ensures
        byte_len(a.push(c)) == byte_len(a) + utf8_width(c),
    decreases a.len(),
{
    if a.len() == 0 {
        assert(a.push(c).drop_first() =~= Seq::<char>::empty());
        assert(a.push(c)[0] == c);
        assert(byte_len(Seq::<char>::empty()) == 0);
    } else {
        assert(a.push(c)[0] == a[0]);
        assert(a.push(c).drop_first() =~= a.drop_first().push(c));
        lemma_byte_len_push(a.drop_first(), c);
    }
}

pub proof fn lemma_byte_offset_take(s: Seq<char>, i: int)
    requires
        0 <= i <= s.len(),
    ensures
        byte_offset(s, i) == byte_len(s.take(i)),
    decreases i,
{
    if i == 0 {
        assert(s.take(0) =~= Seq::<char>::empty());
    } else {
        lemma_byte_offset_take(s, i - 1);
        assert(s.take(i) =~= s.take(i - 1).push(s[i - 1]));
        lemma_byte_len_push(s.take(i - 1), s[i - 1]);
    }
}

pub proof fn lemma_byte_offset_mono(s: Seq<char>, i: int, j: int)
    requires
        0 <= i <= j,
    ensures
        byte_offset(s, i) <= byte_offset(s, j),
    decreases j,
{
    if i < j {
        lemma_byte_offset_mono(s, i, j - 1);
    }
}

/// Byte offsets of the characters of a string slice fit its length.
pub proof fn lemma_byte_offset_bounded(s: &str, i: int)
    requires
        0 <= i <= s@.len(),
    ensures
        byte_offset(s@, i) <= s.spec_bytes().len(),
{
    lemma_byte_offset_mono(s@, i, s@.len() as int);
    lemma_byte_offset_take(s@, s@.len() as int);
    assert(s@.take(s@.len() as int) =~= s@);
    lemma_byte_len_encode(s@);
}

} // verus!

verus! {

/// Test two character vectors for equality.
pub fn chars_eq(a: &Vec<char>, b: &Vec<char>) -> (r: bool)
    ensures
        r == (a@ == b@),
{
    let n = a.len();
    if n != b.len() {
        return false;
    }
    let mut i: usize = 0;
    while i < n
        invariant
            n == a@.len() == b@.len(),
            i <= n,
            a@.subrange(0, i as int) == b@.subrange(0, i as int),
        decreases n - i,
    {
        if a[i] != b[i] {
            assert(a@[i as int] != b@[i as int]);
            return false;
        }
        assert(a@.subrange(0, i + 1) =~= a@.subrange(0, i as int).push(a@[i as int]));
        assert(b@.subrange(0, i + 1) =~= b@.subrange(0, i as int).push(b@[i as int]));
        i = i + 1;
    }
    assert(a@ =~= a@.subrange(0, n as int));
    assert(b@ =~= b@.subrange(0, n as int));
    true
}

/// The characters of two string slices, one after the other.
pub fn chars_of_pair(a: &str, b: &str) -> (r: Vec<char>)
    ensures
        r@ == a@ + b@,
{
    let mut v = to_chars(a);
    let mut w = to_chars(b);
    v.append(&mut w);
    v
}

/// The views of a sequence of string slices, concatenated.
pub open spec fn concat_views(parts: Seq<&str>) -> Seq<char>
    decreases parts.len(),
{
    if parts.len() == 0 {
        Seq::empty()
    } else {
        concat_views(parts.drop_last()) + parts.last()@
    }
}

/// Concatenate string slices into an owned string.
pub fn concat_strs(parts: &[&str]) -> (r: String)
    ensures
        r@ == concat_views(parts@),
{
    let mut s = String::new();
    let mut i: usize = 0;
    while i < parts.len()
        invariant
            i <= parts@.len(),
            s@ == concat_views(parts@.subrange(0, i as int)),
        decreases parts@.len() - i,
    {
        assert(parts@.subrange(0, i + 1).drop_last() =~= parts@.subrange(0, i as int));
        s.append(parts[i]);
        i = i + 1;
    }
    assert(parts@.subrange(0, parts@.len() as int) =~= parts@);
    s
}

} // verus!

verus! {

/// A character with the Unicode `White_Space` property.
pub open spec fn spec_is_whitespace(c: char) -> bool {
    let u = c as u32;
    (0x9 <= u <= 0xd) || u == 0x20 || u == 0x85 || u == 0xa0 || u == 0x1680 || (0x2000 <= u
        <= 0x200a) || u == 0x2028 || u == 0x2029 || u == 0x202f || u == 0x205f || u == 0x3000
}

/// Test if a character has the Unicode `White_Space` property.
pub fn is_whitespace(c: char) -> (r: bool)
    ensures
        r == spec_is_whitespace(c),
{
    let u = c as u32;
    (0x9 <= u && u <= 0xd) || u == 0x20 || u == 0x85 || u == 0xa0 || u == 0x1680 || (0x2000 <= u
        && u <= 0x200a) || u == 0x2028 || u == 0x2029 || u == 0x202f || u == 0x205f || u == 0x3000
}

/// The index of the first character of `s[i..]` which is not whitespace.
pub open spec fn skip_ws_forward(s: Seq<char>, i: int) -> int
    decreases s.len() - i,
{
    if i < s.len() && i >= 0 && spec_is_whitespace(s[i]) {
        skip_ws_forward(s, i + 1)
    } else {
        i
    }
}

/// The end of `s[..j]` with trailing whitespace removed, not going below `lo`.
pub open spec fn skip_ws_backward(s: Seq<char>, lo: int, j: int) -> int
    decreases j - lo,
{
    if j > lo && spec_is_whitespace(s[j - 1]) {
        skip_ws_backward(s, lo, j - 1)
    } else {
        j
    }
}

/// The string with leading and trailing whitespace removed.
pub open spec fn spec_trim(s: Seq<char>) -> Seq<char> {
    let a = skip_ws_forward(s, 0);
    s.subrange(a, skip_ws_backward(s, a, s.len() as int))
}

/// Remove leading and trailing whitespace.
pub fn trim(s: &str) -> (r: &str)
    ensures
        r@ == spec_trim(s@),
{
    let chars = to_chars(s);
    let n = chars.len();
    let mut a: usize = 0;
    while a < n && is_whitespace(chars[a])
        invariant
            chars@ == s@,
            n == s@.len(),
            a <= n,
            skip_ws_forward(s@, 0) == skip_ws_forward(s@, a as int),
        decreases n - a,
    {
        a = a + 1;
    }
    let mut b: usize = n;
    while b > a && is_whitespace(chars[b - 1])
        invariant
            chars@ == s@,
            n == s@.len(),
            a <= b <= n,
            skip_ws_forward(s@, 0) == a,
            skip_ws_backward(s@, a as int, n as int) == skip_ws_backward(s@, a as int, b as int),
        decreases b - a,
    {
        b = b - 1;
    }
    s.substring_char(a, b)
}

} // verus!

verus! {

proof fn lemma_skip_ws_forward_bounds(s: Seq<char>, i: int)
    requires
        0 <= i <= s.len(),
    ensures
        i <= skip_ws_forward(s, i) <= s.len(),
    decreases s.len() - i,
{
    if i < s.len() && spec_is_whitespace(s[i]) {
        lemma_skip_ws_forward_bounds(s, i + 1);
    }
}

proof fn lemma_skip_ws_backward_bounds(s: Seq<char>, lo: int, j: int)
    requires
        0 <= lo <= j <= s.len(),
    ensures
        lo <= skip_ws_backward(s, lo, j) <= j,
    decreases j - lo,
{
    if j > lo && spec_is_whitespace(s[j - 1]) {
        lemma_skip_ws_backward_bounds(s, lo, j - 1);
    }
}

/// Trimming keeps a contiguous part of the string.
pub proof fn lemma_trim_is_subrange(s: Seq<char>)
    ensures
        0 <= skip_ws_forward(s, 0) <= skip_ws_backward(s, skip_ws_forward(s, 0), s.len() as int)
            <= s.len(),
        spec_trim(s) == s.subrange(
            skip_ws_forward(s, 0),
            skip_ws_backward(s, skip_ws_forward(s, 0), s.len() as int),
        ),
        !s.contains('\0') ==> !spec_trim(s).contains('\0'),
{
    lemma_skip_ws_forward_bounds(s, 0);
    lemma_skip_ws_backward_bounds(s, skip_ws_forward(s, 0), s.len() as int);
    let a = skip_ws_forward(s, 0);
    let t = spec_trim(s);
    if !s.contains('\0') {
        assert forall|i: int| 0 <= i < t.len() implies t[i] != '\0' by {
            assert(t[i] == s[a + i]);
        }
    }
}

} // verus!
