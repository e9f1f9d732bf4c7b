//! Lowercase hexadecimal text, the form in which keys and hashes are shown.

use vstd::prelude::*;

verus! {

/// The lowercase hexadecimal digit for a value from 0 to 15.
pub open spec fn hex_digit(nibble: int) -> char {
    seq!['0', '1', '2', '3', '4', '5', '6', '7', '8', '9', 'a', 'b', 'c', 'd', 'e', 'f'][nibble]
}

/// The lowercase hexadecimal text of a byte string: two digits for each byte,
/// the high half first.
pub open spec fn hex_lower(bytes: Seq<u8>) -> Seq<char> {
    Seq::new(
        2 * bytes.len(),
        |i: int|
            if i % 2 == 0 {
                hex_digit(bytes[i / 2] as int / 16)
            } else {
                hex_digit(bytes[i / 2] as int % 16)
            },
    )
}

fn digit_text(nibble: u8) -> (digit: &'static str)
    requires
        nibble < 16,
    ensures
        digit@ == seq![hex_digit(nibble as int)],
{
    proof {
        reveal_strlit("0");
        reveal_strlit("1");
        reveal_strlit("2");
        reveal_strlit("3");
        reveal_strlit("4");
        reveal_strlit("5");
        reveal_strlit("6");
        reveal_strlit("7");
        reveal_strlit("8");
        reveal_strlit("9");
        reveal_strlit("a");
        reveal_strlit("b");
        reveal_strlit("c");
        reveal_strlit("d");
        reveal_strlit("e");
        reveal_strlit("f");
    }
    let digit = match nibble {
        0 => "0",
        1 => "1",
        2 => "2",
        3 => "3",
        4 => "4",
        5 => "5",
        6 => "6",
        7 => "7",
        8 => "8",
        9 => "9",
        10 => "a",
        11 => "b",
        12 => "c",
        13 => "d",
        14 => "e",
        _ => "f",
    };
    assert(digit@ =~= seq![hex_digit(nibble as int)]);
    digit
}

/// Renders `bytes` as lowercase hexadecimal text.
pub fn to_hex_lower(bytes: &[u8]) -> (text: String)
    ensures
        text@ == hex_lower(bytes@),
{
    let mut text = String::new();
    let mut i: usize = 0;
    while i < bytes.len()
        invariant
            i <= bytes.len(),
            text@ == hex_lower(bytes@.take(i as int)),
        decreases bytes.len() - i,
    {
        let byte: u8 = bytes[i];
        text.append(digit_text(byte / 16));
        text.append(digit_text(byte % 16));
        i += 1;
        assert(text@ =~= hex_lower(bytes@.take(i as int)));
    }
    assert(bytes@.take(i as int) =~= bytes@);
    text
}

/// Different values have different digits.
proof fn hex_digit_is_injective(first: int, second: int)
    requires
        0 <= first < 16,
        0 <= second < 16,
        hex_digit(first) == hex_digit(second),
    ensures
        first == second,
{
}

/// Hexadecimal text names its bytes: two byte strings with the same text are
/// the same.
pub proof fn hex_lower_is_injective(first: Seq<u8>, second: Seq<u8>)
    requires
        hex_lower(first) == hex_lower(second),
    ensures
        first == second,
{
    assert(hex_lower(first).len() == 2 * first.len());
    assert(hex_lower(second).len() == 2 * second.len());
    assert forall|i: int| 0 <= i < first.len() implies first[i] == second[i] by {
        let a = first[i] as int;
        let b = second[i] as int;
        assert(hex_lower(first)[2 * i] == hex_digit(a / 16));
        assert(hex_lower(second)[2 * i] == hex_digit(b / 16));
        assert(hex_lower(first)[2 * i + 1] == hex_digit(a % 16));
        assert(hex_lower(second)[2 * i + 1] == hex_digit(b % 16));
        hex_digit_is_injective(a / 16, b / 16);
        hex_digit_is_injective(a % 16, b % 16);
    }
    assert(first =~= second);
}

} // verus!
