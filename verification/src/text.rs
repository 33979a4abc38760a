//! Decimal numerals and fixed-width padding over sequences of characters.

use vstd::prelude::*;

verus! {

/// The character that writes the digit `d`.
pub open spec fn digit_char(d: int) -> char {
    if d == 0 {
        '0'
    } else if d == 1 {
        '1'
    } else if d == 2 {
        '2'
    } else if d == 3 {
        '3'
    } else if d == 4 {
        '4'
    } else if d == 5 {
        '5'
    } else if d == 6 {
        '6'
    } else if d == 7 {
        '7'
    } else if d == 8 {
        '8'
    } else {
        '9'
    }
}

/// The digit that `c` writes, if it writes one.
pub open spec fn digit_value(c: char) -> Option<int> {
    if c == '0' {
        Some(0int)
    } else if c == '1' {
        Some(1int)
    } else if c == '2' {
        Some(2int)
    } else if c == '3' {
        Some(3int)
    } else if c == '4' {
        Some(4int)
    } else if c == '5' {
        Some(5int)
    } else if c == '6' {
        Some(6int)
    } else if c == '7' {
        Some(7int)
    } else if c == '8' {
        Some(8int)
    } else if c == '9' {
        Some(9int)
    } else {
        None
    }
}

/// The decimal numeral of `n`, without sign or leading zeros.
pub open spec fn decimal(n: int) -> Seq<char>
    decreases n,
{
    if n < 10 {
        seq![digit_char(n)]
    } else {
        decimal(n / 10).push(digit_char(n % 10))
    }
}

/// The number that a sequence of digits writes; `None` where the sequence is
/// empty or holds anything but digits.
pub open spec fn parse_decimal(s: Seq<char>) -> Option<int>
    decreases s.len(),
{
    if s.len() == 0 {
        None
    } else if s.len() == 1 {
        digit_value(s[0])
    } else {
        match (parse_decimal(s.drop_last()), digit_value(s.last())) {
            (Some(high), Some(low)) => Some(10 * high + low),
            _ => None,
        }
    }
}

/// `n` spaces.
pub open spec fn spaces(n: int) -> Seq<char> {
    Seq::new(if n > 0 { n as nat } else { 0 }, |i: int| ' ')
}

/// `s` left-justified in a field of `width` characters; longer text is kept whole.
pub open spec fn pad_right(s: Seq<char>, width: int) -> Seq<char> {
    s + spaces(width - s.len())
}

/// `s` right-justified in a field of `width` characters; longer text is kept whole.
pub open spec fn pad_left(s: Seq<char>, width: int) -> Seq<char> {
    spaces(width - s.len()) + s
}

/// Every element of `s` writes a digit.
pub open spec fn all_digits(s: Seq<char>) -> bool {
    forall|i: int| 0 <= i < s.len() ==> digit_value(#[trigger] s[i]).is_some()
}

/// A numeral is never empty and holds digits only.
pub proof fn lemma_decimal_digits(n: int)
    requires
        0 <= n,
    ensures
        decimal(n).len() >= 1,
        all_digits(decimal(n)),
    decreases n,
{
    if n >= 10 {
        lemma_decimal_digits(n / 10);
    }
}

/// Reading a numeral gives back the number it was written from.
pub proof fn lemma_parse_decimal(n: int)
    requires
        0 <= n,
    ensures
        parse_decimal(decimal(n)) == Some(n),
    decreases n,
{
    if n >= 10 {
        lemma_parse_decimal(n / 10);
        lemma_decimal_digits(n / 10);
        let s = decimal(n);
        assert(s.drop_last() =~= decimal(n / 10));
        assert(s.last() == digit_char(n % 10));
    }
}

/// A sequence with a character that is no digit writes no number.
pub proof fn lemma_non_digit_fails(s: Seq<char>, k: int)
    requires
        0 <= k < s.len(),
        digit_value(s[k]).is_none(),
    ensures
        parse_decimal(s).is_none(),
    decreases s.len(),
{
    if s.len() > 1 && k < s.len() - 1 {
        assert(s.drop_last()[k] == s[k]);
        lemma_non_digit_fails(s.drop_last(), k);
    }
}

/// Where a sequence writes a number, each of its non-empty prefixes writes
/// one that is not negative and not larger.
pub proof fn lemma_prefix_is_within(s: Seq<char>, k: int)
    requires
        1 <= k <= s.len(),
        parse_decimal(s).is_some(),
    ensures
        parse_decimal(s.subrange(0, k)).is_some(),
        0 <= parse_decimal(s.subrange(0, k)).unwrap() <= parse_decimal(s).unwrap(),
    decreases s.len(),
{
    if k == s.len() {
        assert(s.subrange(0, k) =~= s);
        if s.len() > 1 {
            lemma_prefix_is_within(s.drop_last(), k - 1);
            assert(s.drop_last().subrange(0, k - 1) =~= s.drop_last());
        }
    } else {
        lemma_prefix_is_within(s.drop_last(), k);
        assert(s.drop_last().subrange(0, k) =~= s.subrange(0, k));
        lemma_prefix_is_within(s.drop_last(), s.len() - 1);
        assert(s.drop_last().subrange(0, s.len() - 1) =~= s.drop_last());
    }
}

/// The digit that a character writes.
pub fn digit_of(c: char) -> (d: Option<u8>)
    ensures
        d.is_some() == digit_value(c).is_some(),
        d.is_some() ==> d.unwrap() as int == digit_value(c).unwrap(),
{
    match c {
        '0' => Some(0),
        '1' => Some(1),
        '2' => Some(2),
        '3' => Some(3),
        '4' => Some(4),
        '5' => Some(5),
        '6' => Some(6),
        '7' => Some(7),
        '8' => Some(8),
        '9' => Some(9),
        _ => None,
    }
}

/// A parsed number where it can be held in a `u128`.
pub open spec fn held(number: Option<int>) -> Option<u128> {
    match number {
        Some(n) => if 0 <= n <= u128::MAX {
            Some(n as u128)
        } else {
            None
        },
        None => None,
    }
}

/// Reads the numeral that stands in `chars` from `from` up to `to`:
/// `None` where that part is empty, holds anything but digits, or writes
/// a number too large for a `u128`.
pub fn parse_number(chars: &Vec<char>, from: usize, to: usize) -> (number: Option<u128>)
    requires
        from <= to <= chars.len(),
    ensures
        number == held(parse_decimal(chars@.subrange(from as int, to as int))),
{
    let ghost whole = chars@.subrange(from as int, to as int);
    let mut value: u128 = 0;
    let mut i: usize = from;
    while i < to
        invariant
            from <= i <= to <= chars.len(),
            whole == chars@.subrange(from as int, to as int),
            i > from ==> parse_decimal(chars@.subrange(from as int, i as int)) == Some(value as int),
            i == from ==> value == 0,
        decreases to - i,
    {
        let ghost before = chars@.subrange(from as int, i as int);
        let ghost now = chars@.subrange(from as int, i + 1);
        assert(now.drop_last() =~= before);
        assert(now.last() == chars@[i as int]);
        assert(now =~= whole.subrange(0, i + 1 - from));
        match digit_of(chars[i]) {
            None => {
                proof {
                    assert(whole[i - from] == chars@[i as int]);
                    lemma_non_digit_fails(whole, i - from);
                }
                return None;
            },
            Some(d) => {
                if value > (u128::MAX - d as u128) / 10 {
                    proof {
                        if parse_decimal(whole).is_some() {
                            lemma_prefix_is_within(whole, i + 1 - from);
                        }
                    }
                    return None;
                }
                value = 10 * value + d as u128;
            },
        }
        i += 1;
    }
    if i == from {
        return None;
    }
    assert(chars@.subrange(from as int, i as int) =~= whole);
    Some(value)
}

fn digit(d: u8) -> (c: char)
    requires
        d < 10,
    ensures
        c == digit_char(d as int),
{
    match d {
        0 => '0',
        1 => '1',
        2 => '2',
        3 => '3',
        4 => '4',
        5 => '5',
        6 => '6',
        7 => '7',
        8 => '8',
        _ => '9',
    }
}

/// Writes `n` as a decimal numeral.
pub fn decimal_chars(n: u128) -> (out: Vec<char>)
    ensures
        out@ == decimal(n as int),
    decreases n,
{
    if n < 10 {
        let mut out: Vec<char> = Vec::new();
        out.push(digit(n as u8));
        assert(out@ =~= decimal(n as int));
        out
    } else {
        let mut out = decimal_chars(n / 10);
        out.push(digit((n % 10) as u8));
        out
    }
}

/// Appends a copy of `tail` to `out`.
pub fn append_chars(out: &mut Vec<char>, tail: &Vec<char>)
    ensures
        final(out)@ == old(out)@ + tail@,
{
    let ghost before = out@;
    let mut i: usize = 0;
    while i < tail.len()
        invariant
            i <= tail.len(),
            out@ == before + tail@.subrange(0, i as int),
        decreases tail.len() - i,
    {
        out.push(tail[i]);
        i += 1;
        assert(out@ =~= before + tail@.subrange(0, i as int));
    }
    assert(tail@.subrange(0, tail.len() as int) =~= tail@);
}

/// Appends `n` spaces to `out`.
pub fn append_spaces(out: &mut Vec<char>, n: usize)
    ensures
        final(out)@ == old(out)@ + spaces(n as int),
{
    let ghost before = out@;
    let mut i: usize = 0;
    while i < n
        invariant
            i <= n,
            out@ == before + spaces(i as int),
        decreases n - i,
    {
        out.push(' ');
        i += 1;
        assert(out@ =~= before + spaces(i as int));
    }
}

/// Appends `cell` left-justified in a field of `width` characters.
pub fn append_padded_right(out: &mut Vec<char>, cell: &Vec<char>, width: usize)
    ensures
        final(out)@ == old(out)@ + pad_right(cell@, width as int),
{
    let ghost before = out@;
    append_chars(out, cell);
    let fill: usize = if cell.len() < width { width - cell.len() } else { 0 };
    append_spaces(out, fill);
    assert(spaces(fill as int) =~= spaces(width - cell@.len()));
    assert(out@ =~= before + pad_right(cell@, width as int));
}

/// Appends `cell` right-justified in a field of `width` characters.
pub fn append_padded_left(out: &mut Vec<char>, cell: &Vec<char>, width: usize)
    ensures
        final(out)@ == old(out)@ + pad_left(cell@, width as int),
{
    let ghost before = out@;
    let fill: usize = if cell.len() < width { width - cell.len() } else { 0 };
    append_spaces(out, fill);
    append_chars(out, cell);
    assert(spaces(fill as int) =~= spaces(width - cell@.len()));
    assert(out@ =~= before + pad_left(cell@, width as int));
}

/// Calls `String::push`: the character is added at the end of the string.
#[verifier::external_body]
fn push_char(s: &mut String, c: char)
    ensures
        final(s)@ == old(s)@.push(c),
{
    s.push(c)
}

/// The string that holds the characters of `chars`, in order.
pub fn string_of(chars: &Vec<char>) -> (s: String)
    ensures
        s@ == chars@,
{
    let mut s = String::new();
    let mut i: usize = 0;
    while i < chars.len()
        invariant
            i <= chars.len(),
            s@ == chars@.subrange(0, i as int),
        decreases chars.len() - i,
    {
        push_char(&mut s, chars[i]);
        i += 1;
        assert(s@ =~= chars@.subrange(0, i as int));
    }
    assert(chars@.subrange(0, chars.len() as int) =~= chars@);
    s
}

/// Fills `s` with spaces on the right up to `width` characters; a longer
/// string is left as it is.
pub fn pad_string_right(s: &mut String, width: usize)
    ensures
        final(s)@ == pad_right(old(s)@, width as int),
{
    let length = s.as_str().unicode_len();
    let mut fill: Vec<char> = Vec::new();
    append_spaces(&mut fill, if length < width { width - length } else { 0 });
    assert(fill@ =~= spaces(width - length));
    let tail = string_of(&fill);
    s.append(tail.as_str());
}

} // verus!
