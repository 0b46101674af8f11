//! Numbers as text.
use vstd::prelude::*;
use vstd::string::{StrSliceExecFns, StringExecFns};

verus! {

/// A hexadecimal digit.
pub open spec fn digit(d: u8) -> Seq<char> {
    match d {
        0 => "0"@,
        1 => "1"@,
        2 => "2"@,
        3 => "3"@,
        4 => "4"@,
        5 => "5"@,
        6 => "6"@,
        7 => "7"@,
        8 => "8"@,
        9 => "9"@,
        10 => "a"@,
        11 => "b"@,
        12 => "c"@,
        13 => "d"@,
        14 => "e"@,
        _ => "f"@,
    }
}

/// A number in decimal digits, without leading zeros.
pub open spec fn decimal(n: nat) -> Seq<char>
    decreases n,
{
    if n < 10 {
        digit(n as u8)
    } else {
        decimal(n / 10) + digit((n % 10) as u8)
    }
}

/// A byte in two hexadecimal digits.
pub open spec fn hex(byte: u8) -> Seq<char> {
    digit(byte / 16) + digit(byte % 16)
}

/// A number of spaces.
pub open spec fn spaces(count: nat) -> Seq<char>
    decreases count,
{
    if count == 0 {
        ""@
    } else {
        spaces((count - 1) as nat) + " "@
    }
}

/// A text aligned to the right of a field; a longer text is kept whole.
pub open spec fn right_aligned(text: Seq<char>, width: nat) -> Seq<char> {
    if text.len() >= width {
        text
    } else {
        spaces((width - text.len()) as nat) + text
    }
}

/// A hexadecimal digit.
fn digit_text(d: u8) -> (text: &'static str)
    requires
        d < 16,
    ensures
        text@ == digit(d),
{
    match d {
        0 => "0",
        1 => "1",
        2 => "2",
        3 => "3",
        4 => "4",
        5 => "5",
        6 => "6",
        7 => "7",
        8 => "8",
        9 => "9",
        10 => "a",
        11 => "b",
        12 => "c",
        13 => "d",
        14 => "e",
        _ => "f",
    }
}

/// A number in decimal digits.
pub fn decimal_text(n: u64) -> (text: String)
    ensures
        text@ == decimal(n as nat),
    decreases n,
{
    if n < 10 {
        return String::from_str(digit_text(n as u8));
    }
    let mut text: String = decimal_text(n / 10);
    text.append(digit_text((n % 10) as u8));
    text
}

/// Appends a number in decimal digits.
pub fn append_decimal(text: &mut String, n: u64)
    ensures
        final(text)@ == old(text)@ + decimal(n as nat),
{
    let digits: String = decimal_text(n);
    text.append(digits.as_str());
}

/// Appends a byte in two hexadecimal digits.
pub fn append_hex(text: &mut String, byte: u8)
    ensures
        final(text)@ == old(text)@ + hex(byte),
{
    text.append(digit_text(byte / 16));
    text.append(digit_text(byte % 16));
    proof {
        assert(text@ =~= old(text)@ + hex(byte));
    }
}

/// Appends a number in decimal digits, aligned to the right of a field.
pub fn append_aligned(text: &mut String, n: u64, width: usize)
    ensures
        final(text)@ == old(text)@ + right_aligned(decimal(n as nat), width as nat),
{
    let digits: String = decimal_text(n);
    let length: usize = digits.as_str().unicode_len();
    let mut padding: String = String::new();
    if length < width {
        let missing: usize = width - length;
        let mut i: usize = 0;
        proof {
            reveal_strlit("");
            assert(padding@ =~= spaces(0));
        }
        while i < missing
            invariant
                i <= missing,
                padding@ == spaces(i as nat),
            decreases missing - i,
        {
            padding.append(" ");
            i = i + 1;
        }
    }
    text.append(padding.as_str());
    text.append(digits.as_str());
    proof {
        assert(text@ =~= old(text)@ + right_aligned(decimal(n as nat), width as nat));
    }
}

/// What a text of decimal digits says.
pub open spec fn digits_value(text: Seq<char>) -> int
    decreases text.len(),
{
    if text.len() == 0 {
        0
    } else {
        10 * digits_value(text.drop_last()) + (text.last() as int - '0' as int)
    }
}

/// A number's decimal digits say the number, so that different numbers are written differently.
pub proof fn law_decimal_reads_back(n: nat)
    ensures
        digits_value(decimal(n)) == n,
        decimal(n).len() > 0,
    decreases n,
{
    let last = digit((n % 10) as u8);
    reveal_strlit("0");
    reveal_strlit("1");
    reveal_strlit("2");
    reveal_strlit("3");
    reveal_strlit("4");
    reveal_strlit("5");
    reveal_strlit("6");
    reveal_strlit("7");
    reveal_strlit("8");
    reveal_strlit("9");
    assert(last.len() == 1);
    assert(last[0] as int - '0' as int == n as int % 10);
    if n >= 10 {
        law_decimal_reads_back(n / 10);
        assert(decimal(n).drop_last() =~= decimal(n / 10));
        assert(decimal(n).last() == last[0]);
    } else {
        assert(decimal(n).drop_last() =~= Seq::empty());
        assert(digits_value(decimal(n).drop_last()) == 0);
    }
}

/// Whether a character is the lower-case hexadecimal digit of a number.
pub open spec fn is_hex_digit(c: char, d: int) -> bool {
    ||| 0 <= d <= 9 && c as int == '0' as int + d
    ||| 10 <= d <= 15 && c as int == 'a' as int + d - 10
}

/// A byte is written as two hexadecimal digits, the sixteens first.
pub proof fn law_hex_has_the_sixteens_first(byte: u8)
    ensures
        hex(byte).len() == 2,
        is_hex_digit(hex(byte)[0], byte as int / 16),
        is_hex_digit(hex(byte)[1], byte as int % 16),
{
    lemma_digit(byte / 16);
    lemma_digit(byte % 16);
}

proof fn lemma_digit(d: u8)
    requires
        d < 16,
    ensures
        digit(d).len() == 1,
        is_hex_digit(digit(d)[0], d as int),
{
    reveal_strlit("0");
    reveal_strlit("1");
    reveal_strlit("2");
    reveal_strlit("3");
    reveal_strlit("4");
    reveal_strlit("5");
    reveal_strlit("6");
    reveal_strlit("7");
    reveal_strlit("8");
    reveal_strlit("9");
    reveal_strlit("a");
    reveal_strlit("b");
    reveal_strlit("c");
    reveal_strlit("d");
    reveal_strlit("e");
    reveal_strlit("f");
}

/// A text is set to the right of its field with spaces in front, and a text that fills the field or
/// more stays as it is.
pub proof fn law_alignment_puts_spaces_in_front(text: Seq<char>, width: nat, i: int)
    ensures
        ({
            let aligned = right_aligned(text, width);
            &&& text.len() >= width ==> aligned == text
            &&& text.len() < width ==> aligned.len() == width && aligned.skip(width - text.len())
                == text
            &&& 0 <= i < width - text.len() ==> aligned[i] == ' '
        }),
{
    if text.len() < width {
        let gap = (width - text.len()) as nat;
        lemma_spaces(gap, i);
        assert(right_aligned(text, width).skip(gap as int) =~= text);
    }
}

proof fn lemma_spaces(count: nat, i: int)
    ensures
        spaces(count).len() == count,
        0 <= i < count ==> spaces(count)[i] == ' ',
    decreases count,
{
    reveal_strlit("");
    reveal_strlit(" ");
    if count > 0 {
        lemma_spaces((count - 1) as nat, i);
    }
}

} // verus!
