//! Building escape sequences and measuring displayed text.
use vstd::prelude::*;
use unicode_width::{UnicodeWidthChar, UnicodeWidthStr};

verus! {

/// The ASCII digit for `d`, which is below ten.
pub open spec fn digit_char(d: nat) -> char {
    if d == 0 { '0' }
    else if d == 1 { '1' }
    else if d == 2 { '2' }
    else if d == 3 { '3' }
    else if d == 4 { '4' }
    else if d == 5 { '5' }
    else if d == 6 { '6' }
    else if d == 7 { '7' }
    else if d == 8 { '8' }
    else { '9' }
}

/// The decimal notation of `n`, without leading zeros.
pub open spec fn decimal(n: nat) -> Seq<char>
    decreases n,
{
    if n < 10 {
        seq![digit_char(n)]
    } else {
        decimal(n / 10).push(digit_char(n % 10))
    }
}

/// Relies on `String::push`: the character is appended at the end.
#[verifier::external_body]
pub(crate) fn push_char(s: &mut String, c: char)
    ensures
        final(s)@ == old(s)@.push(c),
{
    s.push(c)
}

fn digit(d: u64) -> (c: char)
    requires
        d < 10,
    ensures
        c == digit_char(d as nat),
{
    match d {
        0 => '0',
        1 => '1',
        2 => '2',
        3 => '3',
        4 => '4',
        5 => '5',
        6 => '6',
        7 => '7',
        8 => '8',
        _ => '9',
    }
}

/// Appends the decimal notation of `n`.
pub fn push_decimal(s: &mut String, n: u64)
    ensures
        final(s)@ == old(s)@ + decimal(n as nat),
    decreases n,
{
    if n >= 10 {
        push_decimal(s, n / 10);
    }
    push_char(s, digit(n % 10));
    assert(n >= 10 ==> decimal(n as nat) == decimal((n / 10) as nat).push(digit_char((n % 10) as nat)));
}

/// Relies on `String::pop`: the last character is removed and returned.
#[verifier::external_body]
pub(crate) fn pop_char(s: &mut String) -> (r: Option<char>)
    ensures
        old(s)@.len() == 0 ==> r is None && final(s)@ == old(s)@,
        old(s)@.len() > 0 ==> r == Some(old(s)@.last()) && final(s)@ == old(s)@.drop_last(),
{
    s.pop()
}

/// A `String` holding the characters of `s`.
pub fn string_of(s: &str) -> (r: String)
    ensures
        r@ == s@,
{
    let mut r = String::new();
    let n = s.unicode_len();
    let mut i: usize = 0;
    while i < n
        invariant
            n == s@.len(),
            i <= n,
            r@ == s@.take(i as int),
        decreases n - i,
    {
        push_char(&mut r, s.get_char(i));
        i = i + 1;
        assert(r@ =~= s@.take(i as int));
    }
    assert(s@.take(n as int) =~= s@);
    r
}

/// Appends the characters of `t`.
pub fn push_str(s: &mut String, t: &str)
    ensures
        final(s)@ == old(s)@ + t@,
{
    let n = t.unicode_len();
    let mut i: usize = 0;
    let ghost start = s@;
    while i < n
        invariant
            n == t@.len(),
            i <= n,
            s@ == start + t@.take(i as int),
        decreases n - i,
    {
        push_char(s, t.get_char(i));
        i = i + 1;
        assert(s@ =~= start + t@.take(i as int));
    }
    assert(t@.take(n as int) =~= t@);
}

/// Displayed width of a character in terminal columns, `None` for a control
/// character, as given by the Unicode width tables.
pub uninterp spec fn char_width_of(c: char) -> Option<usize>;

/// Displayed width of a string in terminal columns, as given by the Unicode
/// width tables.
pub uninterp spec fn str_width_of(s: Seq<char>) -> usize;

/// Relies on `UnicodeWidthChar::width`: a character below U+0020, or from
/// U+007F to U+009F, is a control character without a width; one from U+0020
/// to U+007E is one column wide; the others are looked up in the tables, whose
/// entries are at most 3.
#[verifier::external_body]
pub fn char_width(c: char) -> (r: Option<usize>)
    ensures
        r == char_width_of(c),
        r matches Some(w) ==> w <= 3,
        (c as u32) < 0x20 || (0x7f <= (c as u32) < 0xa0) ==> r is None,
        0x20 <= (c as u32) < 0x7f ==> r == Some(1usize),
{
    UnicodeWidthChar::width(c)
}

/// Relies on `UnicodeWidthStr::width`: the sum of the widths in the tables;
/// the empty string is zero columns wide.
#[verifier::external_body]
pub fn str_width(s: &str) -> (r: usize)
    ensures
        r == str_width_of(s@),
        s@.len() == 0 ==> r == 0,
{
    UnicodeWidthStr::width(s)
}

/// Whether `c` has a displayed width above zero: only such characters can be
/// drawn.
pub open spec fn renderable(c: char) -> bool {
    match char_width_of(c) {
        Some(w) => w > 0,
        None => false,
    }
}

/// Whether `c` can be drawn, by its displayed width.
pub fn is_renderable(c: char) -> (r: bool)
    ensures
        r == renderable(c),
{
    match char_width(c) {
        Some(w) => w > 0,
        None => false,
    }
}

} // verus!
