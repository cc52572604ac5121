use vstd::prelude::*;
use vstd::string::*;

verus! {

/// The decimal digit character for `d` (`0..=9`).
pub open spec fn digit_char(d: nat) -> char {
    (48 + d) as char
}

/// The decimal rendering of `n`, without sign or leading zeros.
pub open spec fn decimal(n: nat) -> Seq<char>
    decreases n,
{
    if n < 10 {
        seq![digit_char(n)]
    } else {
        decimal(n / 10).push(digit_char(n % 10))
    }
}

/// Appends one character to a string.
/// Trusted: `String::push` appends `c` at the end and changes nothing else.
#[verifier::external_body]
pub(crate) fn push_char(s: &mut String, c: char)
    ensures
        final(s)@ == old(s)@.push(c),
{
    s.push(c);
}

pub(crate) fn digit(d: u128) -> (c: char)
    requires
        d < 10,
    ensures
        c == digit_char(d as nat),
{
    let b: u8 = d as u8;
    (48u8 + b) as char
}

/// Appends the decimal rendering of `n` to `s`.
pub fn push_decimal(s: &mut String, n: u128)
    ensures
        final(s)@ == old(s)@ + decimal(n as nat),
    decreases n,
{
    if n >= 10 {
        push_decimal(s, n / 10);
        push_char(s, digit(n % 10));
    } else {
        push_char(s, digit(n));
    }
}


/// `s` cut to at most `max_len` characters: kept whole when it fits, otherwise
/// its first `max_len - 1` characters followed by an ellipsis.
pub open spec fn truncated(s: Seq<char>, max_len: nat) -> Seq<char> {
    if max_len == 0 {
        Seq::empty()
    } else if s.len() <= max_len {
        s
    } else {
        s.subrange(0, max_len - 1).push('\u{2026}')
    }
}

/// Truncates `s` to at most `max_len` characters (not bytes), marking a cut
/// with a trailing ellipsis, so that a multi-byte character is never split.
pub fn truncate_str(s: &str, max_len: usize) -> (r: String)
    ensures
        r@ == truncated(s@, max_len as nat),
        r@.len() <= max_len,
{
    if max_len == 0 {
        return String::new();
    }
    let char_count = s.unicode_len();
    if char_count <= max_len {
        String::from_str(s)
    } else {
        let head = s.substring_char(0, max_len - 1);
        let mut r = String::from_str(head);
        push_char(&mut r, '\u{2026}');
        r
    }
}


/// Whether `s` consists of exactly the characters of `expected`.
pub fn str_is(s: &str, expected: &[char]) -> (r: bool)
    ensures
        r == (s@ == expected@),
{
    let n = s.unicode_len();
    if n != expected.len() {
        return false;
    }
    let mut i: usize = 0;
    while i < n
        invariant
            n == s@.len(),
            n == expected@.len(),
            i <= n,
            forall|j: int| 0 <= j < i ==> s@[j] == expected@[j],
        decreases n - i,
    {
        if s.get_char(i) != expected[i] {
            return false;
        }
        i += 1;
    }
    assert(s@ =~= expected@);
    true
}


/// `digits` right-aligned in a field of `width` cells: padded on the left
/// with spaces, or left as they are when they are as wide already.
pub open spec fn right_aligned(digits: Seq<char>, width: nat) -> Seq<char> {
    Seq::new(if width >= digits.len() { (width - digits.len()) as nat } else { 0 }, |_i: int| ' ') + digits
}

fn decimal_len(n: usize) -> (len: usize)
    ensures
        len == decimal(n as nat).len(),
        len == 1 || len <= n,
    decreases n,
{
    if n >= 10 {
        1 + decimal_len(n / 10)
    } else {
        1
    }
}

/// Writes `index` right-aligned in a field of `width` cells, as the labels
/// of the per-core bars are written.
pub fn right_aligned_index(index: usize, width: u16) -> (r: String)
    ensures
        r@ == right_aligned(decimal(index as nat), width as nat),
{
    let len = decimal_len(index);
    let mut r = String::new();
    let pad: usize = if width as usize >= len { width as usize - len } else { 0 };
    let mut k: usize = 0;
    while k < pad
        invariant
            k <= pad,
            r@ == Seq::new(k as nat, |_i: int| ' '),
        decreases pad - k,
    {
        push_char(&mut r, ' ');
        k += 1;
        assert(r@ =~= Seq::new(k as nat, |_i: int| ' '));
    }
    push_decimal(&mut r, index as u128);
    assert(r@ =~= right_aligned(decimal(index as nat), width as nat));
    r
}


/// A panel title as it stands in the border: with a space on each side.
pub fn block_title(title: &str) -> (r: String)
    ensures
        r@ == seq![' '] + title@ + seq![' '],
{
    let mut r = String::new();
    push_char(&mut r, ' ');
    r.append(title);
    push_char(&mut r, ' ');
    assert(r@ =~= seq![' '] + title@ + seq![' ']);
    r
}

/// The decimal text of `n`.
pub fn decimal_string(n: u64) -> (r: String)
    ensures
        r@ == decimal(n as nat),
{
    let mut r = String::new();
    push_decimal(&mut r, n as u128);
    assert(r@ =~= decimal(n as nat));
    r
}

} // verus!
